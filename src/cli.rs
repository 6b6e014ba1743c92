use crate::partial::{all_partials, partial_name, Partial};
use vstd::prelude::*;

verus! {

/// Settings of the command line application.
#[derive(Debug)]
pub struct App {
    quiet: bool,
}

impl View for App {
    type V = bool;

    /// Whether progress reporting is off.
    closed spec fn view(&self) -> bool {
        self.quiet
    }
}

impl App {
    /// A new application, which reports progress.
    pub fn new() -> (r: App)
        ensures
            !r@,
    {
        App { quiet: false }
    }

    /// Turns progress reporting off where `quiet` holds, on where it does not.
    pub fn quiet(&mut self, quiet: bool)
        ensures
            final(self)@ == quiet,
    {
        self.quiet = quiet;
    }

    /// Whether progress reporting is off.
    pub fn is_quiet(&self) -> (r: bool)
        ensures
            r == self@,
    {
        self.quiet
    }
}

/// The fields that back-conversion can write out, each on or off.
#[derive(Clone, Copy, Debug)]
pub struct BackconvertOptions {
    /// Writes each point as read, not as back-converted.
    pub original: bool,
    pub vector: bool,
    pub gps_time: bool,
    pub range: bool,
    pub scan_angle: bool,
    pub las_scan_angle: bool,
    pub orientation: bool,
    pub platform: bool,
    pub partials: bool,
}

/// `names` where `on` holds, nothing where it does not.
pub open spec fn names_if(on: bool, names: Seq<Seq<char>>) -> Seq<Seq<char>> {
    if on {
        names
    } else {
        seq![]
    }
}

/// The column names of back-conversion output: the point, then each field that is on.
pub open spec fn header_names(o: BackconvertOptions) -> Seq<Seq<char>> {
    seq!["X"@, "Y"@, "Z"@] + names_if(o.vector, seq!["VectorX"@, "VectorY"@, "VectorZ"@])
        + names_if(o.gps_time, seq!["GpsTime"@]) + names_if(o.range, seq!["Range"@]) + names_if(
        o.scan_angle,
        seq!["ScanAngle"@],
    ) + names_if(o.las_scan_angle, seq!["LasScanAngle"@]) + names_if(
        o.orientation,
        seq!["Roll"@, "Pitch"@, "Yaw"@],
    ) + names_if(o.platform, seq!["PlatformX"@, "PlatformY"@, "PlatformZ"@]) + names_if(
        o.partials,
        all_partials().map_values(|p: Partial| partial_name(p)),
    )
}

/// The characters of each string of `v`.
pub open spec fn string_views(v: Seq<String>) -> Seq<Seq<char>> {
    v.map_values(|s: String| s@)
}

/// Appends `s` to `v`.
fn push_name(v: &mut Vec<String>, s: &str)
    ensures
        string_views(final(v)@) == string_views(old(v)@).push(s@),
{
    v.push(s.to_owned());
    assert(string_views(v@) =~= string_views(old(v)@).push(s@));
}

/// Appends the name of every partial, in the fixed order.
fn push_partial_names(h: &mut Vec<String>)
    ensures
        string_views(final(h)@) == string_views(old(h)@) + all_partials().map_values(
            |p: Partial| partial_name(p),
        ),
{
    let all = Partial::all();
    let ghost start = string_views(h@);
    let mut i: usize = 0;
    while i < all.len()
        invariant
            all@ == all_partials(),
            i <= all@.len(),
            string_views(h@) == start + all_partials().take(i as int).map_values(
                |p: Partial| partial_name(p),
            ),
        decreases all@.len() - i,
    {
        let name = all[i].name();
        let ghost before = h@;
        h.push(name);
        proof {
            assert(name@ == partial_name(all_partials()[i as int]));
            assert(string_views(h@) =~= string_views(before).push(name@));
            assert(all_partials().take(i + 1).map_values(|p: Partial| partial_name(p))
                =~= all_partials().take(i as int).map_values(|p: Partial| partial_name(p)).push(
                partial_name(all_partials()[i as int]),
            ));
            assert(string_views(h@) =~= start + all_partials().take(i + 1).map_values(
                |p: Partial| partial_name(p),
            ));
        }
        i = i + 1;
    }
    assert(all_partials().take(42) =~= all_partials());
}

/// Appends `a` where `on` holds.
fn push_name_if(h: &mut Vec<String>, on: bool, a: &str)
    ensures
        string_views(final(h)@) == string_views(old(h)@) + names_if(on, seq![a@]),
{
    if on {
        push_name(h, a);
    }
    assert(string_views(h@) =~= string_views(old(h)@) + names_if(on, seq![a@]));
}

/// Appends `a`, `b` and `c` where `on` holds.
fn push_names_if(h: &mut Vec<String>, on: bool, a: &str, b: &str, c: &str)
    ensures
        string_views(final(h)@) == string_views(old(h)@) + names_if(on, seq![a@, b@, c@]),
{
    if on {
        push_name(h, a);
        push_name(h, b);
        push_name(h, c);
    }
    assert(string_views(h@) =~= string_views(old(h)@) + names_if(on, seq![a@, b@, c@]));
}

impl BackconvertOptions {
    /// The column names of back-conversion output under these options.
    pub fn header(&self) -> (r: Vec<String>)
        ensures
            string_views(r@) == header_names(*self),
    {
        let mut h: Vec<String> = Vec::new();
        assert(string_views(h@) =~= seq![]);
        push_names_if(&mut h, true, "X", "Y", "Z");
        assert(string_views(h@) =~= seq!["X"@, "Y"@, "Z"@]);
        push_names_if(&mut h, self.vector, "VectorX", "VectorY", "VectorZ");
        push_name_if(&mut h, self.gps_time, "GpsTime");
        push_name_if(&mut h, self.range, "Range");
        push_name_if(&mut h, self.scan_angle, "ScanAngle");
        push_name_if(&mut h, self.las_scan_angle, "LasScanAngle");
        push_names_if(&mut h, self.orientation, "Roll", "Pitch", "Yaw");
        push_names_if(&mut h, self.platform, "PlatformX", "PlatformY", "PlatformZ");
        let ghost before = string_views(h@);
        if self.partials {
            push_partial_names(&mut h);
        }
        assert(string_views(h@) =~= before + names_if(
            self.partials,
            all_partials().map_values(|p: Partial| partial_name(p)),
        ));
        h
    }
}

} // verus!
