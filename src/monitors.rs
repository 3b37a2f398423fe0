//! The catalog of displays and the choice of the best one.

use vstd::prelude::*;
use crate::components::ScaleFactor;

verus! {

/// A display as the platform reports it, in enumeration order.
#[derive(Clone, Debug)]
pub struct DisplayInfo {
    /// Name of the display, when the platform can give one.
    pub name: Option<String>,
    /// Width of the display's best video mode, in physical pixels.
    pub width: u32,
    /// Height of the display's best video mode, in physical pixels.
    pub height: u32,
    /// Refresh rate in millihertz, when the platform reports one.
    pub refresh_rate_millihertz: Option<u32>,
    /// Native scale factor of the display.
    pub scale: ScaleFactor,
}

/// A named display of the catalog.
#[derive(Clone, Debug)]
pub struct MonitorDescriptor {
    /// Name of the display, its lookup key.
    pub name: String,
    /// Position in the platform's enumeration; only breaks ties.
    pub index: usize,
    /// Width of the display's best video mode, in physical pixels.
    pub width: u32,
    /// Height of the display's best video mode, in physical pixels.
    pub height: u32,
    /// Refresh rate in millihertz, when the platform reports one.
    pub refresh_rate_millihertz: Option<u32>,
    /// Native scale factor of the display.
    pub scale: ScaleFactor,
}

/// The named displays of the platform, one per name.
pub struct MonitorCatalog {
    monitors: Vec<MonitorDescriptor>,
}

/// Whether refresh rate `a` is strictly better than `b`: a reported rate beats
/// none, and a higher rate beats a lower one.
pub open spec fn refresh_beats(a: Option<u32>, b: Option<u32>) -> bool {
    match (a, b) {
        (Some(x), Some(y)) => x > y,
        (Some(_), None) => true,
        _ => false,
    }
}

/// Whether refresh rates `a` and `b` tie: both absent, or both equal.
pub open spec fn refresh_ties(a: Option<u32>, b: Option<u32>) -> bool {
    match (a, b) {
        (Some(x), Some(y)) => x == y,
        (None, None) => true,
        _ => false,
    }
}

/// The priority order between displays: width, then height, then refresh
/// rate, then the smaller enumeration index.
pub open spec fn beats(a: MonitorDescriptor, b: MonitorDescriptor) -> bool {
    ||| a.width > b.width
    ||| a.width == b.width && a.height > b.height
    ||| a.width == b.width && a.height == b.height && refresh_beats(
        a.refresh_rate_millihertz,
        b.refresh_rate_millihertz,
    )
    ||| a.width == b.width && a.height == b.height && refresh_ties(
        a.refresh_rate_millihertz,
        b.refresh_rate_millihertz,
    ) && a.index < b.index
}

/// Distinct entries of a catalog have distinct names and distinct indices.
pub open spec fn distinct_monitors(s: Seq<MonitorDescriptor>) -> bool {
    &&& forall|i: int, j: int| 0 <= i < j < s.len() ==> s[i].index < s[j].index
    &&& forall|i: int, j: int|
        0 <= i < s.len() && 0 <= j < s.len() && i != j ==> s[i].name@ != s[j].name@
}

/// `m` is an entry of `s` that beats every other entry.
pub open spec fn is_best(s: Seq<MonitorDescriptor>, m: MonitorDescriptor) -> bool {
    &&& s.contains(m)
    &&& forall|i: int| 0 <= i < s.len() && s[i] != m ==> beats(m, #[trigger] s[i])
}

/// The best entry of a non-empty catalog.
pub open spec fn best_of(s: Seq<MonitorDescriptor>) -> MonitorDescriptor {
    choose|m: MonitorDescriptor| is_best(s, m)
}

/// The display at position `k` of the enumeration is kept: it has a name, and
/// no later display carries the same one.
pub open spec fn kept(raw: Seq<DisplayInfo>, k: int) -> bool {
    &&& raw[k].name is Some
    &&& forall|j: int|
        k < j < raw.len() && (#[trigger] raw[j].name) is Some ==> raw[j].name.unwrap()@
            != raw[k].name.unwrap()@
}

/// The catalog entry for the display at position `k` of the enumeration.
pub open spec fn describe(raw: Seq<DisplayInfo>, k: int) -> MonitorDescriptor {
    MonitorDescriptor {
        name: raw[k].name.unwrap(),
        index: k as usize,
        width: raw[k].width,
        height: raw[k].height,
        refresh_rate_millihertz: raw[k].refresh_rate_millihertz,
        scale: raw[k].scale,
    }
}

/// The catalog of the first `n` displays of the enumeration, in order; of
/// displays sharing a name, the last one stands.
pub open spec fn catalog_of(raw: Seq<DisplayInfo>, n: nat) -> Seq<MonitorDescriptor>
    decreases n,
{
    if n == 0 {
        Seq::empty()
    } else {
        let prev = catalog_of(raw, (n - 1) as nat);
        if kept(raw, n - 1) {
            prev.push(describe(raw, n - 1))
        } else {
            prev
        }
    }
}

proof fn lemma_catalog_of(raw: Seq<DisplayInfo>, n: nat)
    requires
        n <= raw.len(),
        raw.len() <= usize::MAX,
    ensures
        distinct_monitors(catalog_of(raw, n)),
        forall|i: int|
            0 <= i < catalog_of(raw, n).len() ==> {
                let k = (#[trigger] catalog_of(raw, n)[i]).index as int;
                &&& 0 <= k < n
                &&& kept(raw, k)
                &&& catalog_of(raw, n)[i] == describe(raw, k)
            },
    decreases n,
{
    if n > 0 {
        lemma_catalog_of(raw, (n - 1) as nat);
        let prev = catalog_of(raw, (n - 1) as nat);
        if kept(raw, n - 1) {
            let cur = catalog_of(raw, n);
            assert(cur == prev.push(describe(raw, n - 1)));
            assert forall|i: int| 0 <= i < cur.len() && i < prev.len() implies cur[i] == prev[i] by {}
            assert forall|i: int, j: int|
                0 <= i < cur.len() && 0 <= j < cur.len() && i != j implies cur[i].name@
                != cur[j].name@ by {
                if j == prev.len() {
                    let k = prev[i].index as int;
                    assert(raw[n - 1].name is Some);
                } else if i == prev.len() {
                    let k = prev[j].index as int;
                    assert(raw[n - 1].name is Some);
                }
            }
        }
    }
}

proof fn lemma_best_unique(s: Seq<MonitorDescriptor>, x: MonitorDescriptor, y: MonitorDescriptor)
    requires
        is_best(s, x),
        is_best(s, y),
    ensures
        x == y,
{
    if x != y {
        let i = choose|i: int| 0 <= i < s.len() && s[i] == y;
        let j = choose|j: int| 0 <= j < s.len() && s[j] == x;
        assert(beats(x, s[i]));
        assert(beats(y, s[j]));
    }
}

proof fn lemma_best_exists(s: Seq<MonitorDescriptor>)
    requires
        s.len() > 0,
        distinct_monitors(s),
    ensures
        is_best(s, best_of(s)),
    decreases s.len(),
{
    if s.len() == 1 {
        assert(is_best(s, s[0]));
    } else {
        let p = s.drop_last();
        assert(distinct_monitors(p));
        lemma_best_exists(p);
        let m = best_of(p);
        let l = s.last();
        let k = choose|k: int| 0 <= k < p.len() && p[k] == m;
        assert(s[k] == m);
        assert(m.index < l.index);
        if beats(l, m) {
            assert forall|i: int| 0 <= i < s.len() && s[i] != l implies beats(l, #[trigger] s[i]) by {
                if s[i] != m {
                    assert(p[i] == s[i]);
                }
            }
            assert(s[s.len() - 1] == l);
            assert(is_best(s, l));
        } else {
            assert forall|i: int| 0 <= i < s.len() && s[i] != m implies beats(m, #[trigger] s[i]) by {
                if i < p.len() {
                    assert(p[i] == s[i]);
                }
            }
            assert(is_best(s, m));
        }
    }
}

/// The best display does not depend on the order in which the catalog lists
/// its displays: two catalogs with the same entries have the same best entry.
pub proof fn lemma_best_order_independent(a: Seq<MonitorDescriptor>, b: Seq<MonitorDescriptor>)
    requires
        a.len() > 0,
        distinct_monitors(a),
        distinct_monitors(b),
        forall|m: MonitorDescriptor| a.contains(m) <==> b.contains(m),
    ensures
        best_of(a) == best_of(b),
        is_best(a, best_of(a)),
{
    lemma_best_exists(a);
    let x = best_of(a);
    let i = choose|i: int| 0 <= i < a.len() && a[i] == x;
    assert(b.contains(a[i]));
    lemma_best_exists(b);
    assert forall|j: int| 0 <= j < b.len() && b[j] != x implies beats(x, #[trigger] b[j]) by {
        assert(a.contains(b[j]));
    }
    assert(is_best(b, x));
    lemma_best_unique(b, x, best_of(b));
}

/// A display strictly wider than every other display of the catalog is the
/// best one, whatever its height, refresh rate or index.
pub proof fn lemma_widest_is_best(s: Seq<MonitorDescriptor>, w: MonitorDescriptor)
    requires
        distinct_monitors(s),
        s.contains(w),
        forall|i: int| 0 <= i < s.len() && s[i] != w ==> s[i].width < w.width,
    ensures
        best_of(s) == w,
{
    assert(is_best(s, w));
    lemma_best_unique(s, w, best_of(s));
}

impl MonitorDescriptor {
    /// Whether this display comes before `other` in the priority order.
    pub fn beats(&self, other: &MonitorDescriptor) -> (r: bool)
        ensures
            r == beats(*self, *other),
    {
        if self.width != other.width {
            return self.width > other.width;
        }
        if self.height != other.height {
            return self.height > other.height;
        }
        match (self.refresh_rate_millihertz, other.refresh_rate_millihertz) {
            (Some(x), Some(y)) => {
                if x != y {
                    return x > y;
                }
            },
            (Some(_), None) => {
                return true;
            },
            (None, Some(_)) => {
                return false;
            },
            (None, None) => {},
        }
        self.index < other.index
    }
}

impl View for MonitorCatalog {
    type V = Seq<MonitorDescriptor>;

    closed spec fn view(&self) -> Seq<MonitorDescriptor> {
        self.monitors@
    }
}

impl MonitorCatalog {
    /// The catalog's entries have distinct names and indices.
    pub open spec fn wf(&self) -> bool {
        distinct_monitors(self@)
    }

    /// Builds the catalog from the platform's displays, given in enumeration
    /// order: each display's index is its position there, displays without a
    /// name are left out, and of displays sharing a name the last one stands.
    pub fn enumerate(found: &Vec<DisplayInfo>) -> (r: MonitorCatalog)
        ensures
            r@ == catalog_of(found@, found@.len()),
            r.wf(),
    {
        let mut monitors: Vec<MonitorDescriptor> = Vec::new();
        let n = found.len();
        let mut k: usize = 0;
        while k < n
            invariant
                n == found@.len(),
                k <= n,
                monitors@ == catalog_of(found@, k as nat),
            decreases n - k,
        {
            let d = &found[k];
            let mut keep = false;
            match &d.name {
                Some(name) => {
                    keep = true;
                    let mut j: usize = k + 1;
                    while j < n
                        invariant
                            n == found@.len(),
                            k < j <= n,
                            d == found@[k as int],
                            d.name == Some(*name),
                            keep == (forall|t: int|
                                k < t < j && (#[trigger] found@[t].name) is Some
                                    ==> found@[t].name.unwrap()@ != name@),
                        decreases n - j,
                    {
                        match &found[j].name {
                            Some(other) => {
                                if other.eq(name) {
                                    keep = false;
                                }
                            },
                            None => {},
                        }
                        j += 1;
                    }
                    if keep {
                        monitors.push(
                            MonitorDescriptor {
                                name: name.clone(),
                                index: k,
                                width: d.width,
                                height: d.height,
                                refresh_rate_millihertz: d.refresh_rate_millihertz,
                                scale: d.scale,
                            },
                        );
                    }
                },
                None => {},
            }
            assert(keep == kept(found@, k as int));
            k += 1;
        }
        proof {
            lemma_catalog_of(found@, n as nat);
        }
        MonitorCatalog { monitors }
    }

    /// Number of displays in the catalog.
    pub fn len(&self) -> (r: usize)
        ensures
            r == self@.len(),
    {
        self.monitors.len()
    }

    /// Whether the platform reported no usable display.
    pub fn is_empty(&self) -> (r: bool)
        ensures
            r == (self@.len() == 0),
    {
        self.monitors.len() == 0
    }

    /// The display at position `i` of the catalog.
    pub fn get(&self, i: usize) -> (r: &MonitorDescriptor)
        requires
            i < self@.len(),
        ensures
            *r == self@[i as int],
    {
        &self.monitors[i]
    }

    /// The display of the catalog with this name, if any.
    pub fn find(&self, name: &String) -> (r: Option<&MonitorDescriptor>)
        ensures
            match r {
                Some(m) => self@.contains(*m) && m.name@ == name@,
                None => forall|i: int| 0 <= i < self@.len() ==> self@[i].name@ != name@,
            },
    {
        let mut i: usize = 0;
        while i < self.monitors.len()
            invariant
                i <= self@.len(),
                self@ == self.monitors@,
                forall|t: int| 0 <= t < i ==> self@[t].name@ != name@,
            decreases self@.len() - i,
        {
            if self.monitors[i].name.eq(name) {
                assert(self@[i as int] == self.monitors@[i as int]);
                return Some(&self.monitors[i]);
            }
            i += 1;
        }
        None
    }

    /// The best display of a non-empty catalog: the widest, then the tallest,
    /// then the one with the best refresh rate, then the first enumerated.
    pub fn select_best(&self) -> (r: &MonitorDescriptor)
        requires
            self@.len() > 0,
            self.wf(),
        ensures
            is_best(self@, *r),
            *r == best_of(self@),
    {
        let ghost s = self@;
        let mut b: usize = 0;
        let mut i: usize = 1;
        while i < self.monitors.len()
            invariant
                s == self.monitors@,
                distinct_monitors(s),
                b < i <= s.len(),
                forall|j: int| 0 <= j < i && j != b ==> beats(s[b as int], #[trigger] s[j]),
            decreases s.len() - i,
        {
            if self.monitors[i].beats(&self.monitors[b]) {
                b = i;
            }
            i += 1;
        }
        let r = &self.monitors[b];
        proof {
            assert forall|j: int| 0 <= j < s.len() && s[j] != *r implies beats(*r, #[trigger] s[j]) by {}
            assert(s[b as int] == *r);
            lemma_best_exists(s);
            lemma_best_unique(s, *r, best_of(s));
        }
        r
    }
}

} // verus!
