use crate::error::Error;
use crate::partial::Variable;
use vstd::prelude::*;

verus! {

/// The calibration quantities that a solver may adjust: the boresight angles and the
/// lever arm, each held as a value of the scalar type `T`.
#[derive(Clone, Copy, Debug, PartialEq)]
pub struct Calibration<T> {
    pub boresight_roll: T,
    pub boresight_pitch: T,
    pub boresight_yaw: T,
    pub lever_arm_x: T,
    pub lever_arm_y: T,
    pub lever_arm_z: T,
}

/// Whether a variable is one of the calibration quantities.
pub open spec fn is_calibration_variable(v: Variable) -> bool {
    match v {
        Variable::BoresightRoll | Variable::BoresightPitch | Variable::BoresightYaw
        | Variable::LeverArmX | Variable::LeverArmY | Variable::LeverArmZ => true,
        _ => false,
    }
}

/// Whether every variable of `vars` is a calibration quantity.
pub open spec fn all_calibration(vars: Seq<Variable>) -> bool {
    forall|i: int| 0 <= i < vars.len() ==> is_calibration_variable(#[trigger] vars[i])
}

/// Whether `i` is the first position of `vars` that holds no calibration quantity.
pub open spec fn first_unsupported(vars: Seq<Variable>, i: int) -> bool {
    &&& 0 <= i < vars.len()
    &&& !is_calibration_variable(vars[i])
    &&& all_calibration(vars.take(i))
}

impl<T> Calibration<T> {
    /// The value held for `v`, or `None` where `v` is no calibration quantity.
    pub open spec fn get(self, v: Variable) -> Option<T> {
        match v {
            Variable::BoresightRoll => Some(self.boresight_roll),
            Variable::BoresightPitch => Some(self.boresight_pitch),
            Variable::BoresightYaw => Some(self.boresight_yaw),
            Variable::LeverArmX => Some(self.lever_arm_x),
            Variable::LeverArmY => Some(self.lever_arm_y),
            Variable::LeverArmZ => Some(self.lever_arm_z),
            _ => None,
        }
    }

    /// This calibration with the value for `v` replaced by `x` (unchanged where `v` is no
    /// calibration quantity).
    pub open spec fn set(self, v: Variable, x: T) -> Self {
        match v {
            Variable::BoresightRoll => Calibration { boresight_roll: x, ..self },
            Variable::BoresightPitch => Calibration { boresight_pitch: x, ..self },
            Variable::BoresightYaw => Calibration { boresight_yaw: x, ..self },
            Variable::LeverArmX => Calibration { lever_arm_x: x, ..self },
            Variable::LeverArmY => Calibration { lever_arm_y: x, ..self },
            Variable::LeverArmZ => Calibration { lever_arm_z: x, ..self },
            _ => self,
        }
    }

    /// The values held for each of `vars`, in order.
    pub open spec fn values_of(self, vars: Seq<Variable>) -> Seq<T> {
        vars.map_values(|v: Variable| self.get(v)->0)
    }

    /// This calibration after assigning `vals[j]` to `vars[j]` for each `j < n`, in order.
    pub open spec fn assigned(self, vars: Seq<Variable>, vals: Seq<T>, n: nat) -> Self
        decreases n,
    {
        if n == 0 {
            self
        } else {
            self.assigned(vars, vals, (n - 1) as nat).set(vars[n - 1], vals[n - 1])
        }
    }
}

/// The number of pairs that zipping sequences of lengths `a` and `b` gives.
pub open spec fn zip_len(a: nat, b: nat) -> nat {
    if a < b {
        a
    } else {
        b
    }
}

impl<T: Copy> Calibration<T> {
    /// The value held for `v`, or an error naming `v` where it is no calibration quantity.
    pub fn value(&self, v: Variable) -> (r: Result<T, Error>)
        ensures
            is_calibration_variable(v) ==> r == Ok::<T, Error>(self.get(v)->0),
            !is_calibration_variable(v) ==> r == Err::<T, Error>(Error::UnsupportedVariable(v)),
    {
        match v {
            Variable::BoresightRoll => Ok(self.boresight_roll),
            Variable::BoresightPitch => Ok(self.boresight_pitch),
            Variable::BoresightYaw => Ok(self.boresight_yaw),
            Variable::LeverArmX => Ok(self.lever_arm_x),
            Variable::LeverArmY => Ok(self.lever_arm_y),
            Variable::LeverArmZ => Ok(self.lever_arm_z),
            _ => Err(Error::UnsupportedVariable(v)),
        }
    }

    /// Assigns `x` to `v`, or fails naming `v` where it is no calibration quantity.
    pub fn set_value(&mut self, v: Variable, x: T) -> (r: Result<(), Error>)
        ensures
            is_calibration_variable(v) ==> r is Ok && *final(self) == old(self).set(v, x),
            !is_calibration_variable(v) ==> r == Err::<(), Error>(Error::UnsupportedVariable(v))
                && *final(self) == *old(self),
    {
        match v {
            Variable::BoresightRoll => self.boresight_roll = x,
            Variable::BoresightPitch => self.boresight_pitch = x,
            Variable::BoresightYaw => self.boresight_yaw = x,
            Variable::LeverArmX => self.lever_arm_x = x,
            Variable::LeverArmY => self.lever_arm_y = x,
            Variable::LeverArmZ => self.lever_arm_z = x,
            _ => return Err(Error::UnsupportedVariable(v)),
        }
        Ok(())
    }

    /// The values held for `variables`, in order; fails naming the first variable that is
    /// no calibration quantity.
    pub fn values(&self, variables: &[Variable]) -> (r: Result<Vec<T>, Error>)
        ensures
            all_calibration(variables@) ==> (r matches Ok(vals) && vals@ == self.values_of(
                variables@,
            )),
            !all_calibration(variables@) ==> exists|i: int|
                first_unsupported(variables@, i) && r == Err::<Vec<T>, Error>(
                    Error::UnsupportedVariable(variables@[i]),
                ),
    {
        let mut vals: Vec<T> = Vec::new();
        let mut i: usize = 0;
        while i < variables.len()
            invariant
                i <= variables@.len(),
                all_calibration(variables@.take(i as int)),
                vals@ == self.values_of(variables@.take(i as int)),
            decreases variables@.len() - i,
        {
            let v = variables[i];
            match self.value(v) {
                Ok(x) => {
                    vals.push(x);
                    assert(variables@.take(i + 1) =~= variables@.take(i as int).push(v));
                    assert(vals@ =~= self.values_of(variables@.take(i + 1)));
                },
                Err(e) => {
                    assert(first_unsupported(variables@, i as int));
                    assert(!all_calibration(variables@));
                    return Err(e);
                },
            }
            i = i + 1;
        }
        assert(variables@.take(i as int) =~= variables@);
        Ok(vals)
    }

    /// A copy of this calibration with `values[j]` assigned to `variables[j]`, pair by pair
    /// (extra entries of the longer slice are ignored); fails naming the first variable of
    /// those pairs that is no calibration quantity.
    pub fn with_values(&self, variables: &[Variable], values: &[T]) -> (r: Result<
        Calibration<T>,
        Error,
    >)
        ensures
            ({
                let n = zip_len(variables@.len(), values@.len());
                &&& all_calibration(variables@.take(n as int)) ==> r == Ok::<Calibration<T>, Error>(
                    self.assigned(variables@, values@, n),
                )
                &&& !all_calibration(variables@.take(n as int)) ==> exists|i: int|
                    first_unsupported(variables@, i) && i < n && r == Err::<Calibration<T>, Error>(
                        Error::UnsupportedVariable(variables@[i]),
                    )
            }),
    {
        let n: usize = if variables.len() < values.len() {
            variables.len()
        } else {
            values.len()
        };
        let mut c: Calibration<T> = *self;
        let mut i: usize = 0;
        while i < n
            invariant
                n == zip_len(variables@.len(), values@.len()),
                i <= n,
                all_calibration(variables@.take(i as int)),
                c == self.assigned(variables@, values@, i as nat),
            decreases n - i,
        {
            let v = variables[i];
            match c.set_value(v, values[i]) {
                Ok(()) => {
                    assert(variables@.take(i + 1) =~= variables@.take(i as int).push(v));
                },
                Err(e) => {
                    assert(first_unsupported(variables@, i as int));
                    assert(variables@.take(n as int)[i as int] == v);
                    return Err(e);
                },
            }
            i = i + 1;
        }
        Ok(c)
    }
}

/// Assigning values to calibration variables and reading the same variables back gives the
/// values assigned, wherever no variable is given two different values.
pub proof fn lemma_values_round_trip<T>(c: Calibration<T>, vars: Seq<Variable>, vals: Seq<T>)
    requires
        all_calibration(vars),
        vars.len() == vals.len(),
        forall|i: int, j: int|
            0 <= i < vars.len() && 0 <= j < vars.len() && vars[i] == vars[j] ==> vals[i]
                == vals[j],
    ensures
        c.assigned(vars, vals, vars.len()).values_of(vars) == vals,
{
    lemma_assigned_get(c, vars, vals, vars.len());
    assert(c.assigned(vars, vals, vars.len()).values_of(vars) =~= vals);
}

/// After the first `n` assignments, each of those variables holds the value assigned to it.
proof fn lemma_assigned_get<T>(c: Calibration<T>, vars: Seq<Variable>, vals: Seq<T>, n: nat)
    requires
        all_calibration(vars),
        n <= vars.len(),
        n <= vals.len(),
        forall|i: int, j: int|
            0 <= i < n && 0 <= j < n && vars[i] == vars[j] ==> vals[i] == vals[j],
    ensures
        forall|i: int| 0 <= i < n ==> #[trigger] c.assigned(vars, vals, n).get(vars[i]) == Some(
            vals[i],
        ),
    decreases n,
{
    if n > 0 {
        lemma_assigned_get(c, vars, vals, (n - 1) as nat);
        let prev = c.assigned(vars, vals, (n - 1) as nat);
        assert forall|i: int| 0 <= i < n implies #[trigger] c.assigned(vars, vals, n).get(vars[i])
            == Some(vals[i]) by {
            assert(is_calibration_variable(vars[n - 1]));
            assert(is_calibration_variable(vars[i]));
            if i < n - 1 {
                assert(prev.get(vars[i]) == Some(vals[i]));
            }
        }
    }
}

} // verus!
