//! The order of search hits: by file name and path, by score, or by a time
//! stamp, each ascending or descending.
use vstd::prelude::*;
use core::cmp::Ordering;
use crate::sort::{reversed, SortConfig, SortDirection, SortMode};

verus! {

/// A component of a path, as `std::path::Path::components` yields it.
#[derive(Debug)]
pub enum PathComponent {
    /// A Windows path prefix such as `C:`
    Prefix(Vec<char>),
    /// The root directory `/`
    RootDir,
    /// `.` at the start of a relative path
    CurDir,
    /// `..`
    ParentDir,
    /// A file or directory name
    Normal(Vec<char>),
}

/// The abstract value of a path component.
pub enum ComponentView {
    Prefix(Seq<char>),
    RootDir,
    CurDir,
    ParentDir,
    Normal(Seq<char>),
}

impl View for PathComponent {
    type V = ComponentView;

    open spec fn view(&self) -> ComponentView {
        match self {
            PathComponent::Prefix(s) => ComponentView::Prefix(s@),
            PathComponent::RootDir => ComponentView::RootDir,
            PathComponent::CurDir => ComponentView::CurDir,
            PathComponent::ParentDir => ComponentView::ParentDir,
            PathComponent::Normal(s) => ComponentView::Normal(s@),
        }
    }
}

/// The components of a path: what `std::path::Path::components` yields for it.
pub uninterp spec fn path_components(path: Seq<char>) -> Seq<ComponentView>;

/// Calls `std::path::Path::components`, mapping each component one for one.
#[verifier::external_body]
pub(crate) fn components_of(path: &str) -> (r: Vec<PathComponent>)
    ensures
        r@.map_values(|c: PathComponent| c@) == path_components(path@),
{
    let mut out = Vec::new();
    for c in std::path::Path::new(path).components() {
        out.push(match c {
            std::path::Component::Prefix(p) => PathComponent::Prefix(p.as_os_str().to_string_lossy().chars().collect()),
            std::path::Component::RootDir => PathComponent::RootDir,
            std::path::Component::CurDir => PathComponent::CurDir,
            std::path::Component::ParentDir => PathComponent::ParentDir,
            std::path::Component::Normal(s) => PathComponent::Normal(s.to_string_lossy().chars().collect()),
        });
    }
    out
}

/// The file name of a path with these components: its last component, when
/// that is a name (`Path::file_name`).
pub open spec fn file_name_of(comps: Seq<ComponentView>) -> Option<Seq<char>> {
    if comps.len() > 0 && comps.last() is Normal {
        Some(comps.last()->Normal_0)
    } else {
        None
    }
}

/// ASCII letters lowered, other characters kept.
pub open spec fn ascii_lower_char(c: char) -> char {
    if 'A' <= c && c <= 'Z' {
        (((c as u32) + 32) as u8) as char
    } else {
        c
    }
}

pub open spec fn ascii_lower(s: Seq<char>) -> Seq<char> {
    s.map_values(|c: char| ascii_lower_char(c))
}

/// `Less`, `Equal` or `Greater` as `a` is below, equal to or above `b`.
pub open spec fn int_order(a: int, b: int) -> Ordering {
    if a < b {
        Ordering::Less
    } else if a == b {
        Ordering::Equal
    } else {
        Ordering::Greater
    }
}

/// `Less`, `Equal` or `Greater` as `a` is below, equal to or above `b`.
pub open spec fn u64_order(a: u64, b: u64) -> Ordering {
    if a < b {
        Ordering::Less
    } else if a == b {
        Ordering::Equal
    } else {
        Ordering::Greater
    }
}

/// `Less`, `Equal` or `Greater` as `a` is below, equal to or above `b`.
pub open spec fn u32_order(a: u32, b: u32) -> Ordering {
    if a < b {
        Ordering::Less
    } else if a == b {
        Ordering::Equal
    } else {
        Ordering::Greater
    }
}

/// `Less`, `Equal` or `Greater` as the code point of `a` is below, equal to or above that of `b`.
pub open spec fn char_order(a: char, b: char) -> Ordering {
    if a < b {
        Ordering::Less
    } else if a == b {
        Ordering::Equal
    } else {
        Ordering::Greater
    }
}

/// The first ordering, or the second where the first is `Equal`.
pub open spec fn then(first: Ordering, second: Ordering) -> Ordering {
    if first == Ordering::Equal { second } else { first }
}

/// Lexicographic order of character sequences by code point, which is the
/// byte order of their UTF-8 encodings.
pub open spec fn chars_order(a: Seq<char>, b: Seq<char>) -> Ordering
    decreases a.len(),
{
    if a.len() == 0 && b.len() == 0 {
        Ordering::Equal
    } else if a.len() == 0 {
        Ordering::Less
    } else if b.len() == 0 {
        Ordering::Greater
    } else if a[0] != b[0] {
        char_order(a[0], b[0])
    } else {
        chars_order(a.drop_first(), b.drop_first())
    }
}

/// The rank of a component's kind: prefixes, root, `.`, `..`, names.
pub open spec fn component_rank(c: ComponentView) -> int {
    match c {
        ComponentView::Prefix(_) => 0,
        ComponentView::RootDir => 1,
        ComponentView::CurDir => 2,
        ComponentView::ParentDir => 3,
        ComponentView::Normal(_) => 4,
    }
}

pub open spec fn component_text(c: ComponentView) -> Seq<char> {
    match c {
        ComponentView::Prefix(s) => s,
        ComponentView::Normal(s) => s,
        _ => Seq::empty(),
    }
}

/// Components by kind, then by text.
pub open spec fn component_order(a: ComponentView, b: ComponentView) -> Ordering {
    then(int_order(component_rank(a), component_rank(b)), chars_order(component_text(a), component_text(b)))
}

/// Lexicographic order of component sequences: the order of paths.
pub open spec fn components_order(a: Seq<ComponentView>, b: Seq<ComponentView>) -> Ordering
    decreases a.len(),
{
    if a.len() == 0 && b.len() == 0 {
        Ordering::Equal
    } else if a.len() == 0 {
        Ordering::Less
    } else if b.len() == 0 {
        Ordering::Greater
    } else if component_order(a[0], b[0]) != Ordering::Equal {
        component_order(a[0], b[0])
    } else {
        components_order(a.drop_first(), b.drop_first())
    }
}

/// `None` below every name, names by `chars_order`.
pub open spec fn name_order(a: Option<Seq<char>>, b: Option<Seq<char>>) -> Ordering {
    match (a, b) {
        (None, None) => Ordering::Equal,
        (None, Some(_)) => Ordering::Less,
        (Some(_), None) => Ordering::Greater,
        (Some(x), Some(y)) => chars_order(x, y),
    }
}

/// A hit without a score below every hit with one; scores by their order keys.
pub open spec fn score_order(a: Option<u32>, b: Option<u32>) -> Ordering {
    match (a, b) {
        (Some(x), Some(y)) => u32_order(x, y),
        (Some(_), None) => Ordering::Greater,
        (None, Some(_)) => Ordering::Less,
        (None, None) => Ordering::Equal,
    }
}

/// What the order of hits reads of a hit.
pub struct HitKeyView {
    pub components: Seq<ComponentView>,
    pub score: Option<u32>,
    pub access_time: u64,
    pub modified_time: u64,
    pub create_time: u64,
}

/// The order of two hits in a sort mode, before the direction is applied.
pub open spec fn mode_order(a: HitKeyView, b: HitKeyView, mode: SortMode) -> Ordering {
    match mode {
        SortMode::FilePath => then(
            name_order(
                match file_name_of(a.components) { Some(n) => Some(ascii_lower(n)), None => None },
                match file_name_of(b.components) { Some(n) => Some(ascii_lower(n)), None => None },
            ),
            components_order(a.components, b.components),
        ),
        SortMode::AccessedTime => u64_order(a.access_time, b.access_time),
        SortMode::CreatedTime => u64_order(a.create_time, b.create_time),
        SortMode::ModifiedTime => u64_order(a.modified_time, b.modified_time),
        SortMode::Score => then(score_order(a.score, b.score), components_order(a.components, b.components)),
    }
}

/// The order of two hits under a sort configuration.
pub open spec fn hit_order(a: HitKeyView, b: HitKeyView, config: SortConfig) -> Ordering {
    config.direction.applied_to(mode_order(a, b, config.mode))
}

/// `a` comes no later than `b`.
pub open spec fn hit_le(a: HitKeyView, b: HitKeyView, config: SortConfig) -> bool {
    hit_order(a, b, config) != Ordering::Greater
}

// ----- order laws -----

proof fn lemma_int_order(a: int, b: int, c: int)
    ensures
        int_order(a, b) == reversed(int_order(b, a)),
        int_order(a, b) == Ordering::Equal <==> a == b,
        int_order(a, b) != Ordering::Greater && int_order(b, c) != Ordering::Greater
            ==> int_order(a, c) != Ordering::Greater,
        int_order(a, b) == Ordering::Less && int_order(b, c) == Ordering::Less
            ==> int_order(a, c) == Ordering::Less,
{
}

proof fn lemma_chars_order(a: Seq<char>, b: Seq<char>, c: Seq<char>)
    ensures
        chars_order(a, b) == reversed(chars_order(b, a)),
        chars_order(a, b) == Ordering::Equal <==> a == b,
        chars_order(a, b) == Ordering::Less && chars_order(b, c) == Ordering::Less
            ==> chars_order(a, c) == Ordering::Less,
    decreases a.len(),
{
    if a.len() > 0 && b.len() > 0 {
        lemma_chars_order(a.drop_first(), b.drop_first(), if c.len() > 0 { c.drop_first() } else { c });
        if a[0] == b[0] && chars_order(a.drop_first(), b.drop_first()) == Ordering::Equal {
            assert(a[0] == b[0]);
            assert(a =~= seq![a[0]] + a.drop_first());
            assert(b =~= seq![b[0]] + b.drop_first());
        }
        if a == b {
            assert(a.drop_first() == b.drop_first());
        }
    } else if a.len() == 0 && b.len() == 0 {
        assert(a =~= b);
    }
}

proof fn lemma_component_order(a: ComponentView, b: ComponentView, c: ComponentView)
    ensures
        component_order(a, b) == reversed(component_order(b, a)),
        component_order(a, b) == Ordering::Equal <==> a == b,
        component_order(a, b) == Ordering::Less && component_order(b, c) == Ordering::Less
            ==> component_order(a, c) == Ordering::Less,
{
    lemma_chars_order(component_text(a), component_text(b), component_text(c));
    lemma_chars_order(component_text(b), component_text(a), component_text(c));
    lemma_int_order(component_rank(a), component_rank(b), component_rank(c));
}

proof fn lemma_components_order(a: Seq<ComponentView>, b: Seq<ComponentView>, c: Seq<ComponentView>)
    ensures
        components_order(a, b) == reversed(components_order(b, a)),
        components_order(a, b) == Ordering::Equal <==> a == b,
        components_order(a, b) == Ordering::Less && components_order(b, c) == Ordering::Less
            ==> components_order(a, c) == Ordering::Less,
    decreases a.len(),
{
    if a.len() > 0 && b.len() > 0 {
        let c0 = if c.len() > 0 { c[0] } else { a[0] };
        lemma_component_order(a[0], b[0], c0);
        lemma_component_order(b[0], a[0], c0);
        lemma_components_order(a.drop_first(), b.drop_first(), if c.len() > 0 { c.drop_first() } else { c });
        if component_order(a[0], b[0]) == Ordering::Equal && components_order(a.drop_first(), b.drop_first()) == Ordering::Equal {
            assert(a =~= seq![a[0]] + a.drop_first());
            assert(b =~= seq![b[0]] + b.drop_first());
        }
        if a == b {
            assert(a.drop_first() == b.drop_first());
        }
        if c.len() > 0 {
            lemma_component_order(a[0], c[0], b[0]);
            lemma_component_order(c[0], b[0], a[0]);
            lemma_component_order(a[0], b[0], c[0]);
            lemma_component_order(b[0], c[0], a[0]);
        }
    } else if a.len() == 0 && b.len() == 0 {
        assert(a =~= b);
    }
}

proof fn lemma_components_le_trans(a: Seq<ComponentView>, b: Seq<ComponentView>, c: Seq<ComponentView>)
    ensures
        components_order(a, b) != Ordering::Greater && components_order(b, c) != Ordering::Greater
            ==> components_order(a, c) != Ordering::Greater,
{
    lemma_components_order(a, b, c);
    lemma_components_order(b, c, a);
    if components_order(a, b) == Ordering::Equal {
        assert(a == b);
    }
    if components_order(b, c) == Ordering::Equal {
        assert(b == c);
    }
}

proof fn lemma_name_order(a: Option<Seq<char>>, b: Option<Seq<char>>, c: Option<Seq<char>>)
    ensures
        name_order(a, b) == reversed(name_order(b, a)),
        name_order(a, b) == Ordering::Equal <==> a == b,
        name_order(a, b) == Ordering::Less && name_order(b, c) == Ordering::Less
            ==> name_order(a, c) == Ordering::Less,
{
    if a is Some && b is Some {
        let z = if c is Some { c->0 } else { a->0 };
        lemma_chars_order(a->0, b->0, z);
        lemma_chars_order(b->0, a->0, z);
    }
}

proof fn lemma_score_order(a: Option<u32>, b: Option<u32>, c: Option<u32>)
    ensures
        score_order(a, b) == reversed(score_order(b, a)),
        score_order(a, b) == Ordering::Equal <==> a == b,
        score_order(a, b) == Ordering::Less && score_order(b, c) == Ordering::Less
            ==> score_order(a, c) == Ordering::Less,
{
}

/// `then` of two total orders given by their three laws is a total preorder.
proof fn lemma_then_le(o_ab: Ordering, o_bc: Ordering, o_ac: Ordering, p_ab: Ordering, p_bc: Ordering, p_ac: Ordering)
    requires
        o_ab == Ordering::Equal && o_bc == Ordering::Equal ==> o_ac == Ordering::Equal,
        o_ab == Ordering::Equal && o_bc == Ordering::Less ==> o_ac == Ordering::Less,
        o_ab == Ordering::Less && o_bc == Ordering::Equal ==> o_ac == Ordering::Less,
        o_ab == Ordering::Less && o_bc == Ordering::Less ==> o_ac == Ordering::Less,
        o_ab == Ordering::Equal && o_bc == Ordering::Equal && p_ab != Ordering::Greater
            && p_bc != Ordering::Greater ==> p_ac != Ordering::Greater,
    ensures
        then(o_ab, p_ab) != Ordering::Greater && then(o_bc, p_bc) != Ordering::Greater
            ==> then(o_ac, p_ac) != Ordering::Greater,
{
}

/// The order of hits in a mode is a total preorder: flipping the arguments
/// reverses it, and "no later than" is transitive.
pub proof fn lemma_mode_order_total(a: HitKeyView, b: HitKeyView, c: HitKeyView, mode: SortMode)
    ensures
        mode_order(a, b, mode) == reversed(mode_order(b, a, mode)),
        mode_order(a, b, mode) != Ordering::Greater && mode_order(b, c, mode) != Ordering::Greater
            ==> mode_order(a, c, mode) != Ordering::Greater,
{
    let na = match file_name_of(a.components) { Some(n) => Some(ascii_lower(n)), None => None };
    let nb = match file_name_of(b.components) { Some(n) => Some(ascii_lower(n)), None => None };
    let nc = match file_name_of(c.components) { Some(n) => Some(ascii_lower(n)), None => None };
    lemma_components_order(a.components, b.components, c.components);
    lemma_components_order(b.components, a.components, c.components);
    lemma_name_order(na, nb, nc);
    lemma_name_order(nb, na, nc);
    lemma_name_order(nb, nc, na);
    lemma_name_order(na, nc, nb);
    lemma_score_order(a.score, b.score, c.score);
    lemma_score_order(b.score, a.score, c.score);
    lemma_score_order(b.score, c.score, a.score);
    lemma_score_order(a.score, c.score, b.score);
    lemma_components_le_trans(a.components, b.components, c.components);
    match mode {
        SortMode::FilePath => {
            lemma_then_le(
                name_order(na, nb), name_order(nb, nc), name_order(na, nc),
                components_order(a.components, b.components),
                components_order(b.components, c.components),
                components_order(a.components, c.components),
            );
        },
        SortMode::Score => {
            lemma_then_le(
                score_order(a.score, b.score), score_order(b.score, c.score), score_order(a.score, c.score),
                components_order(a.components, b.components),
                components_order(b.components, c.components),
                components_order(a.components, c.components),
            );
        },
        _ => {},
    }
}

proof fn lemma_chars_order_less(a: Seq<char>, b: Seq<char>, k: int)
    requires
        0 <= k <= a.len(),
        k <= b.len(),
        a.take(k) == b.take(k),
        (k < a.len() && k < b.len() && a[k] < b[k]) || (k == a.len() && k < b.len()),
    ensures
        chars_order(a, b) == Ordering::Less,
    decreases k,
{
    if k > 0 {
        assert(a[0] == a.take(k)[0]);
        assert(b[0] == b.take(k)[0]);
        assert(a.drop_first().take(k - 1) =~= a.take(k).drop_first());
        assert(b.drop_first().take(k - 1) =~= b.take(k).drop_first());
        lemma_chars_order_less(a.drop_first(), b.drop_first(), k - 1);
    }
}

/// Sorting by file path puts the hits in the order of their file names, read
/// without regard to ASCII case: a hit without a file name comes before every
/// hit with one, and of two names the one that is lower at the first place
/// where they differ, or that stops where the other goes on, comes first.
/// Ascending that hit comes first; descending it comes last.
pub proof fn lemma_file_path_sort_by_name(a: HitKeyView, b: HitKeyView, direction: SortDirection, k: int)
    ensures
        file_name_of(a.components) is None && file_name_of(b.components) is Some ==> hit_order(
            a,
            b,
            SortConfig { mode: SortMode::FilePath, direction },
        ) == direction.applied_to(Ordering::Less),
        file_name_of(a.components) matches Some(x) ==> (file_name_of(b.components) matches Some(y) ==> (
            (0 <= k <= ascii_lower(x).len() && k < ascii_lower(y).len()
                && ascii_lower(x).take(k) == ascii_lower(y).take(k)
                && (k == ascii_lower(x).len() || ascii_lower(x)[k] < ascii_lower(y)[k]))
            ==> hit_order(a, b, SortConfig { mode: SortMode::FilePath, direction }) == direction.applied_to(
                Ordering::Less,
            ))),
{
    if let (Some(x), Some(y)) = (file_name_of(a.components), file_name_of(b.components)) {
        let lx = ascii_lower(x);
        let ly = ascii_lower(y);
        if 0 <= k <= lx.len() && k < ly.len() && lx.take(k) == ly.take(k) && (k == lx.len() || lx[k] < ly[k]) {
            lemma_chars_order_less(lx, ly, k);
        }
    }
}

/// Under the score sort, a hit that comes no later than another has the lower
/// score (or none) ascending, and the higher score (or the other has none)
/// descending.
pub proof fn lemma_score_keys_in_order(a: HitKeyView, b: HitKeyView, config: SortConfig)
    requires
        config.mode == SortMode::Score,
        hit_lt(a, b, config) || !hit_lt(b, a, config),
    ensures
        config.direction == SortDirection::Ascending ==> {
            &&& a.score is Some ==> b.score is Some
            &&& a.score matches Some(x) ==> (b.score matches Some(y) ==> x <= y)
        },
        config.direction == SortDirection::Descending ==> {
            &&& b.score is Some ==> a.score is Some
            &&& a.score matches Some(x) ==> (b.score matches Some(y) ==> x >= y)
        },
{
    let ab = score_order(a.score, b.score);
    let ba = score_order(b.score, a.score);
    assert(mode_order(a, b, config.mode) == then(ab, components_order(a.components, b.components)));
    assert(mode_order(b, a, config.mode) == then(ba, components_order(b.components, a.components)));
    assert(hit_order(a, b, config) == config.direction.applied_to(mode_order(a, b, config.mode)));
    assert(hit_order(b, a, config) == config.direction.applied_to(mode_order(b, a, config.mode)));
    match (a.score, b.score) {
        (Some(x), Some(y)) => {
            assert(ab == u32_order(x, y));
            assert(ba == u32_order(y, x));
            if config.direction == SortDirection::Ascending {
                assert(x <= y);
            } else {
                assert(x >= y);
            }
        },
        (Some(x), None) => {
            assert(ab == Ordering::Greater);
            assert(ba == Ordering::Less);
            assert(config.direction == SortDirection::Descending);
        },
        (None, Some(y)) => {
            assert(ab == Ordering::Less);
            assert(ba == Ordering::Greater);
            assert(config.direction == SortDirection::Ascending);
        },
        (None, None) => {},
    }
}

/// The order of hits under a configuration is a total preorder.
pub proof fn lemma_hit_order_total(a: HitKeyView, b: HitKeyView, c: HitKeyView, config: SortConfig)
    ensures
        hit_order(a, b, config) == reversed(hit_order(b, a, config)),
        hit_le(a, b, config) && hit_le(b, c, config) ==> hit_le(a, c, config),
        hit_le(a, b, config) || hit_le(b, a, config),
{
    lemma_mode_order_total(a, b, c, config.mode);
    lemma_mode_order_total(c, b, a, config.mode);
    lemma_mode_order_total(b, a, c, config.mode);
    lemma_mode_order_total(a, c, b, config.mode);
}

} // verus!

verus! {

/// What the order reads of a hit, computed once when the hit arrives.
pub struct HitKey {
    /// The file name, ASCII letters lowered
    pub name: Option<Vec<char>>,
    pub components: Vec<PathComponent>,
    pub score: Option<u32>,
    pub access_time: u64,
    pub modified_time: u64,
    pub create_time: u64,
}

impl View for HitKey {
    type V = HitKeyView;

    open spec fn view(&self) -> HitKeyView {
        HitKeyView {
            components: self.components@.map_values(|c: PathComponent| c@),
            score: self.score,
            access_time: self.access_time,
            modified_time: self.modified_time,
            create_time: self.create_time,
        }
    }
}

/// The lowered file name of the path with these components.
pub open spec fn lowered_name(comps: Seq<ComponentView>) -> Option<Seq<char>> {
    match file_name_of(comps) {
        Some(n) => Some(ascii_lower(n)),
        None => None,
    }
}

impl HitKey {
    /// The stored name is the lowered file name of the stored components.
    pub open spec fn wf(&self) -> bool {
        match self.name {
            Some(n) => lowered_name(self@.components) == Some(n@),
            None => lowered_name(self@.components) is None,
        }
    }
}

/// The views of a sequence of keys.
pub open spec fn key_views(keys: Seq<HitKey>) -> Seq<HitKeyView> {
    keys.map_values(|k: HitKey| k@)
}

/// ASCII letters lowered, other characters kept.
pub fn lower_ascii(s: &Vec<char>) -> (r: Vec<char>)
    ensures
        r@ == ascii_lower(s@),
{
    let mut r: Vec<char> = Vec::new();
    let mut i: usize = 0;
    while i < s.len()
        invariant
            0 <= i <= s@.len(),
            r@ == ascii_lower(s@.take(i as int)),
        decreases s@.len() - i,
    {
        let c = s[i];
        let l = if 'A' <= c && c <= 'Z' { (((c as u32) + 32) as u8) as char } else { c };
        proof {
            assert(ascii_lower(s@.take(i + 1)) =~= ascii_lower(s@.take(i as int)).push(ascii_lower_char(c)));
        }
        r.push(l);
        i = i + 1;
    }
    proof {
        assert(s@.take(s@.len() as int) =~= s@);
    }
    r
}

} // verus!

verus! {

/// `s` from position `i` on.
pub open spec fn suffix<T>(s: Seq<T>, i: usize) -> Seq<T> {
    s.skip(i as int)
}

/// Compares two character sequences by code point, lexicographically.
pub fn chars_cmp(a: &Vec<char>, b: &Vec<char>) -> (o: Ordering)
    ensures
        o == chars_order(a@, b@),
{
    let mut i: usize = 0;
    proof {
        assert(suffix(a@, 0) =~= a@);
        assert(suffix(b@, 0) =~= b@);
    }
    while i < a.len() && i < b.len() && a[i] == b[i]
        invariant
            0 <= i <= a@.len(),
            i <= b@.len(),
            chars_order(a@, b@) == chars_order(suffix(a@, i), suffix(b@, i)),
        decreases a@.len() - i,
    {
        proof {
            let sa = suffix(a@, i);
            let sb = suffix(b@, i);
            assert(sa.drop_first() =~= a@.skip(i + 1));
            assert(sb.drop_first() =~= b@.skip(i + 1));
        }
        i = i + 1;
    }
    if i == a.len() && i == b.len() {
        Ordering::Equal
    } else if i == a.len() {
        Ordering::Less
    } else if i == b.len() {
        Ordering::Greater
    } else if a[i] < b[i] {
        Ordering::Less
    } else {
        Ordering::Greater
    }
}

fn component_rank_of(c: &PathComponent) -> (r: u8)
    ensures
        r == component_rank(c@),
{
    match c {
        PathComponent::Prefix(_) => 0,
        PathComponent::RootDir => 1,
        PathComponent::CurDir => 2,
        PathComponent::ParentDir => 3,
        PathComponent::Normal(_) => 4,
    }
}

/// Compares two path components: by kind, then by text.
pub fn component_cmp(a: &PathComponent, b: &PathComponent) -> (o: Ordering)
    ensures
        o == component_order(a@, b@),
{
    let ra = component_rank_of(a);
    let rb = component_rank_of(b);
    if ra < rb {
        Ordering::Less
    } else if ra > rb {
        Ordering::Greater
    } else {
        match (a, b) {
            (PathComponent::Prefix(x), PathComponent::Prefix(y)) => chars_cmp(x, y),
            (PathComponent::Normal(x), PathComponent::Normal(y)) => chars_cmp(x, y),
            _ => Ordering::Equal,
        }
    }
}

/// Compares two paths given by their components, lexicographically.
pub fn components_cmp(a: &Vec<PathComponent>, b: &Vec<PathComponent>) -> (o: Ordering)
    ensures
        o == components_order(a@.map_values(|c: PathComponent| c@), b@.map_values(|c: PathComponent| c@)),
{
    let ghost va = a@.map_values(|c: PathComponent| c@);
    let ghost vb = b@.map_values(|c: PathComponent| c@);
    let mut i: usize = 0;
    proof {
        assert(suffix(va, 0) =~= va);
        assert(suffix(vb, 0) =~= vb);
    }
    while i < a.len() && i < b.len()
        invariant
            0 <= i <= a@.len(),
            i <= b@.len(),
            va == a@.map_values(|c: PathComponent| c@),
            vb == b@.map_values(|c: PathComponent| c@),
            components_order(va, vb) == components_order(suffix(va, i), suffix(vb, i)),
        decreases a@.len() - i,
    {
        let o = component_cmp(&a[i], &b[i]);
        proof {
            let sa = suffix(va, i);
            let sb = suffix(vb, i);
            assert(sa[0] == suffix(a@, i)[0]@);
            assert(sb[0] == suffix(b@, i)[0]@);
            assert(sa.drop_first() =~= va.skip(i + 1));
            assert(sb.drop_first() =~= vb.skip(i + 1));
        }
        match o {
            Ordering::Equal => {},
            _ => {
                return o;
            },
        }
        i = i + 1;
    }
    if i == a.len() && i == b.len() {
        Ordering::Equal
    } else if i == a.len() {
        Ordering::Less
    } else {
        Ordering::Greater
    }
}

/// Compares two optional names: no name first.
pub fn name_cmp(a: &Option<Vec<char>>, b: &Option<Vec<char>>) -> (o: Ordering)
    ensures
        o == name_order(
            match a { Some(x) => Some(x@), None => None },
            match b { Some(x) => Some(x@), None => None },
        ),
{
    match (a, b) {
        (None, None) => Ordering::Equal,
        (None, Some(_)) => Ordering::Less,
        (Some(_), None) => Ordering::Greater,
        (Some(x), Some(y)) => chars_cmp(x, y),
    }
}

fn u64_cmp(a: u64, b: u64) -> (o: Ordering)
    ensures
        o == u64_order(a, b),
{
    if a < b {
        Ordering::Less
    } else if a == b {
        Ordering::Equal
    } else {
        Ordering::Greater
    }
}

fn score_cmp(a: Option<u32>, b: Option<u32>) -> (o: Ordering)
    ensures
        o == score_order(a, b),
{
    match (a, b) {
        (Some(x), Some(y)) => if x < y {
            Ordering::Less
        } else if x == y {
            Ordering::Equal
        } else {
            Ordering::Greater
        },
        (Some(_), None) => Ordering::Greater,
        (None, Some(_)) => Ordering::Less,
        (None, None) => Ordering::Equal,
    }
}

/// Compares two hits under a sort configuration.
pub fn compare_hits(a: &HitKey, b: &HitKey, config: &SortConfig) -> (o: Ordering)
    requires
        a.wf(),
        b.wf(),
    ensures
        o == hit_order(a@, b@, *config),
{
    let base = match config.mode {
        SortMode::FilePath => {
            let first = name_cmp(&a.name, &b.name);
            proof {
                assert(match a.name { Some(x) => Some(x@), None => None } == lowered_name(a@.components));
                assert(match b.name { Some(x) => Some(x@), None => None } == lowered_name(b@.components));
            }
            match first {
                Ordering::Equal => components_cmp(&a.components, &b.components),
                _ => first,
            }
        },
        SortMode::AccessedTime => u64_cmp(a.access_time, b.access_time),
        SortMode::CreatedTime => u64_cmp(a.create_time, b.create_time),
        SortMode::ModifiedTime => u64_cmp(a.modified_time, b.modified_time),
        SortMode::Score => {
            let first = score_cmp(a.score, b.score);
            match first {
                Ordering::Equal => components_cmp(&a.components, &b.components),
                _ => first,
            }
        },
    };
    config.direction.apply(base)
}

} // verus!

verus! {

/// `a` comes strictly before `b`.
pub open spec fn hit_lt(a: HitKeyView, b: HitKeyView, config: SortConfig) -> bool {
    hit_order(a, b, config) == Ordering::Less
}

/// Whether hit `a` comes strictly before hit `b` under `config`.
pub fn hit_less(a: &HitKey, b: &HitKey, config: &SortConfig) -> (r: bool)
    requires
        a.wf(),
        b.wf(),
    ensures
        r == hit_lt(a@, b@, *config),
{
    match compare_hits(a, b, config) {
        Ordering::Less => true,
        _ => false,
    }
}

/// "Strictly before" and "no later than" of a total preorder.
pub proof fn lemma_hit_lt_le(a: HitKeyView, b: HitKeyView, c: HitKeyView, config: SortConfig)
    ensures
        hit_lt(a, b, config) <==> !hit_le(b, a, config),
        hit_le(a, b, config) || hit_le(b, a, config),
        hit_le(a, b, config) && hit_le(b, c, config) ==> hit_le(a, c, config),
        hit_lt(a, b, config) && hit_le(b, c, config) ==> hit_lt(a, c, config),
        hit_le(a, b, config) && hit_lt(b, c, config) ==> hit_lt(a, c, config),
{
    lemma_hit_order_total(a, b, c, config);
    lemma_hit_order_total(b, c, a, config);
    lemma_hit_order_total(c, a, b, config);
    lemma_hit_order_total(a, c, b, config);
}

} // verus!
