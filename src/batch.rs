use crate::error::Error;
use crate::partial::Variable;
use vstd::prelude::*;
use vstd::std_specs::cmp::PartialEqSpec;

verus! {

/// Whether `configs` is fit for one solver run: it is not empty, and each configuration
/// equals the first.
pub open spec fn batch_is_consistent<C: PartialEq>(configs: Seq<C>) -> bool {
    &&& configs.len() > 0
    &&& forall|i: int| 0 <= i < configs.len() ==> configs[0].eq_spec(&#[trigger] configs[i])
}

/// Checks the configurations of a batch of measurements before a solver run: fails with
/// `NoMeasurements` on an empty batch, and with `ConfigMismatch(i)` where the
/// configuration at position `i` is the first that differs from the first one (position 0
/// where the first does not equal itself).
pub fn check_batch<C: PartialEq>(configs: &[C]) -> (r: Result<(), Error>)
    ensures
        configs@.len() == 0 <==> r == Err::<(), Error>(Error::NoMeasurements),
        r is Ok || r == Err::<(), Error>(Error::NoMeasurements) || r is Err && r->Err_0 is ConfigMismatch,
        r matches Err(Error::ConfigMismatch(i)) ==> i < configs@.len(),
        C::obeys_eq_spec() ==> (r is Ok <==> batch_is_consistent(configs@)),
        C::obeys_eq_spec() && (exists|i: int|
            0 <= i < configs@.len() && !configs@[0].eq_spec(&#[trigger] configs@[i])) ==> (r matches Err(
            Error::ConfigMismatch(_),
        )),
        C::obeys_eq_spec() ==> (r matches Err(Error::ConfigMismatch(i)) ==> !configs@[0].eq_spec(
            &configs@[i as int],
        ) && forall|j: int| 0 <= j < i ==> configs@[0].eq_spec(&#[trigger] configs@[j])),
{
    if configs.len() == 0 {
        return Err(Error::NoMeasurements);
    }
    let mut i: usize = 0;
    while i < configs.len()
        invariant
            0 < configs@.len(),
            i <= configs@.len(),
            C::obeys_eq_spec() ==> forall|j: int| 0 <= j < i ==> configs@[0].eq_spec(&#[trigger] configs@[j]),
        decreases configs@.len() - i,
    {
        if !configs[0].eq(&configs[i]) {
            return Err(Error::ConfigMismatch(i));
        }
        i = i + 1;
    }
    Ok(())
}

/// The variables that a solver adjusts: the lever arm offsets where `lever_arm` holds, the
/// boresight angles where it does not.
pub fn adjusted_variables(lever_arm: bool) -> (r: Vec<Variable>)
    ensures
        lever_arm ==> r@ == seq![Variable::LeverArmX, Variable::LeverArmY, Variable::LeverArmZ],
        !lever_arm ==> r@ == seq![Variable::BoresightRoll, Variable::BoresightPitch, Variable::BoresightYaw],
{
    let r = if lever_arm {
        vec![Variable::LeverArmX, Variable::LeverArmY, Variable::LeverArmZ]
    } else {
        vec![Variable::BoresightRoll, Variable::BoresightPitch, Variable::BoresightYaw]
    };
    assert(lever_arm ==> r@ =~= seq![Variable::LeverArmX, Variable::LeverArmY, Variable::LeverArmZ]);
    assert(!lever_arm ==> r@ =~= seq![Variable::BoresightRoll, Variable::BoresightPitch, Variable::BoresightYaw]);
    r
}

} // verus!
