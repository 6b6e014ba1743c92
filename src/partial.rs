use vstd::prelude::*;
use vstd::string::*;

verus! {

/// One of the three axes of a computed point.
#[derive(Clone, Copy, Debug, PartialEq, Eq, Structural)]
pub enum Dimension {
    X,
    Y,
    Z,
}

/// A quantity of the lidar equation that a computed point depends on.
#[derive(Clone, Copy, Debug, PartialEq, Eq, Structural)]
pub enum Variable {
    Range,
    ScanAngle,
    BoresightRoll,
    BoresightPitch,
    BoresightYaw,
    LeverArmX,
    LeverArmY,
    LeverArmZ,
    ImuRoll,
    ImuPitch,
    ImuYaw,
    GnssX,
    GnssY,
    GnssZ,
}

/// One entry of the Jacobian: the derivative of a dimension with respect to a variable.
#[derive(Clone, Copy, Debug, PartialEq, Eq, Structural)]
pub struct Partial(pub Dimension, pub Variable);

/// The dimensions in their fixed order.
pub open spec fn all_dimensions() -> Seq<Dimension> {
    seq![Dimension::X, Dimension::Y, Dimension::Z]
}

/// The variables in their fixed order.
pub open spec fn all_variables() -> Seq<Variable> {
    seq![
        Variable::Range,
        Variable::ScanAngle,
        Variable::BoresightRoll,
        Variable::BoresightPitch,
        Variable::BoresightYaw,
        Variable::LeverArmX,
        Variable::LeverArmY,
        Variable::LeverArmZ,
        Variable::ImuRoll,
        Variable::ImuPitch,
        Variable::ImuYaw,
        Variable::GnssX,
        Variable::GnssY,
        Variable::GnssZ,
    ]
}

/// Every partial, variable by variable, and within a variable dimension by dimension.
pub open spec fn all_partials() -> Seq<Partial> {
    Seq::new(42, |k: int| Partial(all_dimensions()[k % 3], all_variables()[k / 3]))
}

pub open spec fn dimension_name(d: Dimension) -> Seq<char> {
    match d {
        Dimension::X => "X"@,
        Dimension::Y => "Y"@,
        Dimension::Z => "Z"@,
    }
}

pub open spec fn variable_name(v: Variable) -> Seq<char> {
    match v {
        Variable::Range => "Range"@,
        Variable::ScanAngle => "ScanAngle"@,
        Variable::BoresightRoll => "BoresightRoll"@,
        Variable::BoresightPitch => "BoresightPitch"@,
        Variable::BoresightYaw => "BoresightYaw"@,
        Variable::LeverArmX => "LeverArmX"@,
        Variable::LeverArmY => "LeverArmY"@,
        Variable::LeverArmZ => "LeverArmZ"@,
        Variable::ImuRoll => "ImuRoll"@,
        Variable::ImuPitch => "ImuPitch"@,
        Variable::ImuYaw => "ImuYaw"@,
        Variable::GnssX => "GnssX"@,
        Variable::GnssY => "GnssY"@,
        Variable::GnssZ => "GnssZ"@,
    }
}

/// The name of a partial, `d<dimension>/d<variable>`.
pub open spec fn partial_name(p: Partial) -> Seq<char> {
    "d"@ + dimension_name(p.0) + "/d"@ + variable_name(p.1)
}

impl Dimension {
    /// The dimension at position `i` of the order X, Y, Z.
    pub fn at(i: usize) -> (r: Dimension)
        requires
            i < 3,
        ensures
            r == all_dimensions()[i as int],
    {
        if i == 0 {
            Dimension::X
        } else if i == 1 {
            Dimension::Y
        } else {
            Dimension::Z
        }
    }

    /// All three dimensions, in order.
    pub fn all() -> (r: Vec<Dimension>)
        ensures
            r@ == all_dimensions(),
    {
        let r = vec![Dimension::X, Dimension::Y, Dimension::Z];
        assert(r@ =~= all_dimensions());
        r
    }

    /// A cursor over all three dimensions, starting at X.
    pub fn iter() -> (r: DimensionIter)
        ensures
            r@ == 0,
    {
        DimensionIter::new()
    }

    /// The name of this dimension.
    pub fn name(&self) -> (r: String)
        ensures
            r@ == dimension_name(*self),
    {
        match self {
            Dimension::X => "X".to_owned(),
            Dimension::Y => "Y".to_owned(),
            Dimension::Z => "Z".to_owned(),
        }
    }
}

/// A cursor that hands out the dimensions one at a time.
#[derive(Debug)]
pub struct DimensionIter {
    index: usize,
}

impl View for DimensionIter {
    type V = nat;

    /// How many dimensions have been handed out.
    closed spec fn view(&self) -> nat {
        self.index as nat
    }
}

impl DimensionIter {
    pub fn new() -> (r: DimensionIter)
        ensures
            r@ == 0,
    {
        DimensionIter { index: 0 }
    }

    /// The next dimension, or `None` once all three have been handed out.
    pub fn next(&mut self) -> (r: Option<Dimension>)
        ensures
            old(self)@ < 3 ==> r == Some(all_dimensions()[old(self)@ as int]) && final(self)@
                == old(self)@ + 1,
            old(self)@ >= 3 ==> r is None && final(self)@ == old(self)@,
    {
        if self.index < 3 {
            let d = Dimension::at(self.index);
            self.index = self.index + 1;
            Some(d)
        } else {
            None
        }
    }
}

impl Variable {
    /// The variable at position `i` of the fixed order.
    pub fn at(i: usize) -> (r: Variable)
        requires
            i < 14,
        ensures
            r == all_variables()[i as int],
    {
        match i {
            0 => Variable::Range,
            1 => Variable::ScanAngle,
            2 => Variable::BoresightRoll,
            3 => Variable::BoresightPitch,
            4 => Variable::BoresightYaw,
            5 => Variable::LeverArmX,
            6 => Variable::LeverArmY,
            7 => Variable::LeverArmZ,
            8 => Variable::ImuRoll,
            9 => Variable::ImuPitch,
            10 => Variable::ImuYaw,
            11 => Variable::GnssX,
            12 => Variable::GnssY,
            _ => Variable::GnssZ,
        }
    }

    /// All fourteen variables, in order.
    pub fn all() -> (r: Vec<Variable>)
        ensures
            r@ == all_variables(),
    {
        let mut r: Vec<Variable> = Vec::new();
        let mut i: usize = 0;
        while i < 14
            invariant
                i <= 14,
                r@ == all_variables().take(i as int),
            decreases 14 - i,
        {
            r.push(Variable::at(i));
            assert(all_variables().take(i + 1) =~= all_variables().take(i as int).push(
                all_variables()[i as int],
            ));
            i = i + 1;
        }
        assert(all_variables().take(14) =~= all_variables());
        r
    }

    /// A cursor over all variables, starting at the first.
    pub fn iter() -> (r: VariableIter)
        ensures
            r@ == 0,
    {
        VariableIter { index: 0 }
    }

    /// Whether this variable is an angle (and so measured in radians).
    pub fn is_angle(&self) -> (r: bool)
        ensures
            r == (*self == Variable::ScanAngle || *self == Variable::BoresightRoll || *self
                == Variable::BoresightPitch || *self == Variable::BoresightYaw || *self
                == Variable::ImuRoll || *self == Variable::ImuPitch || *self == Variable::ImuYaw),
    {
        match self {
            Variable::ScanAngle | Variable::BoresightRoll | Variable::BoresightPitch
            | Variable::BoresightYaw | Variable::ImuRoll | Variable::ImuPitch
            | Variable::ImuYaw => true,
            _ => false,
        }
    }

    /// The name of this variable.
    pub fn name(&self) -> (r: String)
        ensures
            r@ == variable_name(*self),
    {
        let s: &str = match self {
            Variable::Range => "Range",
            Variable::ScanAngle => "ScanAngle",
            Variable::BoresightRoll => "BoresightRoll",
            Variable::BoresightPitch => "BoresightPitch",
            Variable::BoresightYaw => "BoresightYaw",
            Variable::LeverArmX => "LeverArmX",
            Variable::LeverArmY => "LeverArmY",
            Variable::LeverArmZ => "LeverArmZ",
            Variable::ImuRoll => "ImuRoll",
            Variable::ImuPitch => "ImuPitch",
            Variable::ImuYaw => "ImuYaw",
            Variable::GnssX => "GnssX",
            Variable::GnssY => "GnssY",
            Variable::GnssZ => "GnssZ",
        };
        s.to_owned()
    }
}

/// A cursor that hands out the variables one at a time.
#[derive(Debug)]
pub struct VariableIter {
    index: usize,
}

impl View for VariableIter {
    type V = nat;

    /// How many variables have been handed out.
    closed spec fn view(&self) -> nat {
        self.index as nat
    }
}

impl VariableIter {
    /// The next variable, or `None` once all have been handed out.
    pub fn next(&mut self) -> (r: Option<Variable>)
        ensures
            old(self)@ < 14 ==> r == Some(all_variables()[old(self)@ as int]) && final(self)@
                == old(self)@ + 1,
            old(self)@ >= 14 ==> r is None && final(self)@ == old(self)@,
    {
        if self.index < 14 {
            let v = Variable::at(self.index);
            self.index = self.index + 1;
            Some(v)
        } else {
            None
        }
    }
}

impl Partial {
    /// All partials: for each variable in order, its X, Y and Z partials.
    pub fn all() -> (r: Vec<Partial>)
        ensures
            r@ == all_partials(),
    {
        let mut r: Vec<Partial> = Vec::new();
        let mut i: usize = 0;
        while i < 14
            invariant
                i <= 14,
                r@ == all_partials().take(3 * i),
            decreases 14 - i,
        {
            let v = Variable::at(i);
            let mut j: usize = 0;
            while j < 3
                invariant
                    i < 14,
                    j <= 3,
                    v == all_variables()[i as int],
                    r@ == all_partials().take(3 * i + j),
                decreases 3 - j,
            {
                r.push(Partial(Dimension::at(j), v));
                assert((3 * i + j) / 3 == i as int && (3 * i + j) % 3 == j as int)
                    by (nonlinear_arith)
                    requires
                        j < 3,
                ;
                assert(all_partials().take(3 * i + j + 1) =~= all_partials().take(
                    3 * i + j,
                ).push(all_partials()[3 * i + j]));
                j = j + 1;
            }
            i = i + 1;
        }
        assert(all_partials().take(42) =~= all_partials());
        r
    }

    /// A cursor over all partials, in the order of `all`.
    pub fn iter() -> (r: PartialIter)
        ensures
            r@ == 0,
    {
        PartialIter { index: 0 }
    }

    /// The name of this partial, such as `dX/dBoresightRoll`.
    pub fn name(&self) -> (r: String)
        ensures
            r@ == partial_name(*self),
    {
        let mut s = "d".to_owned();
        let dimension = self.0.name();
        s.append(dimension.as_str());
        s.append("/d");
        let variable = self.1.name();
        s.append(variable.as_str());
        s
    }
}

/// A cursor that hands out the partials one at a time.
#[derive(Debug)]
pub struct PartialIter {
    index: usize,
}

impl View for PartialIter {
    type V = nat;

    /// How many partials have been handed out.
    closed spec fn view(&self) -> nat {
        self.index as nat
    }
}

impl PartialIter {
    /// The next partial, or `None` once all have been handed out.
    pub fn next(&mut self) -> (r: Option<Partial>)
        ensures
            old(self)@ < 42 ==> r == Some(all_partials()[old(self)@ as int]) && final(self)@
                == old(self)@ + 1,
            old(self)@ >= 42 ==> r is None && final(self)@ == old(self)@,
    {
        if self.index < 42 {
            let p = Partial(Dimension::at(self.index % 3), Variable::at(self.index / 3));
            self.index = self.index + 1;
            Some(p)
        } else {
            None
        }
    }
}

} // verus!
