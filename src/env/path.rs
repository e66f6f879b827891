//! Paths as sequences of components, and finding, stripping and abbreviating their
//! ancestors.
//!
//! Paths follow the Unix conventions: `/` separates components, a leading `/` is the
//! root directory, `.` is kept only at the start of a relative path.
use vstd::prelude::*;
use vstd::string::StrSliceExecFns;

verus! {

/// One component of a path, as the library reasons about it.
pub enum ComponentView {
    RootDir,
    CurDir,
    ParentDir,
    Normal(Seq<char>),
}

/// One component of a path.
#[derive(Debug, Clone, PartialEq, Eq, Hash)]
pub enum Component {
    /// The root directory, `/`.
    RootDir,
    /// `.` at the start of a relative path.
    CurDir,
    /// `..`.
    ParentDir,
    /// A name.
    Normal(String),
}

impl View for Component {
    type V = ComponentView;

    open spec fn view(&self) -> ComponentView {
        match self {
            Component::RootDir => ComponentView::RootDir,
            Component::CurDir => ComponentView::CurDir,
            Component::ParentDir => ComponentView::ParentDir,
            Component::Normal(name) => ComponentView::Normal(name@),
        }
    }
}

impl Component {
    /// A copy of this component.
    pub(crate) fn duplicate(&self) -> (r: Component)
        ensures
            r@ == self@,
    {
        match self {
            Component::RootDir => Component::RootDir,
            Component::CurDir => Component::CurDir,
            Component::ParentDir => Component::ParentDir,
            Component::Normal(name) => Component::Normal(name.clone()),
        }
    }

    /// Whether the two components are the same.
    pub(crate) fn same_as(&self, other: &Component) -> (r: bool)
        ensures
            r == (self@ == other@),
    {
        match self {
            Component::RootDir => matches!(other, Component::RootDir),
            Component::CurDir => matches!(other, Component::CurDir),
            Component::ParentDir => matches!(other, Component::ParentDir),
            Component::Normal(a) => match other {
                Component::Normal(b) => {
                    let same = *a == *b;
                    assert(same == (self@ == other@));
                    same
                },
                _ => false,
            },
        }
    }

    /// Whether this component is `.`.
    pub(crate) fn is_cur_dir(&self) -> (r: bool)
        ensures
            r == (self@ is CurDir),
    {
        matches!(self, Component::CurDir)
    }
}

/// A path, as the sequence of its components.
#[derive(Debug, Clone, PartialEq, Eq, Hash)]
pub struct Path {
    pub components: Vec<Component>,
}

impl View for Path {
    type V = Seq<ComponentView>;

    open spec fn view(&self) -> Seq<ComponentView> {
        views(self.components@)
    }
}

/// The views of `components`.
pub open spec fn views(components: Seq<Component>) -> Seq<ComponentView> {
    components.map_values(|c: Component| c@)
}

proof fn lemma_views_push(components: Seq<Component>, c: Component)
    ensures
        views(components.push(c)) == views(components).push(c@),
{
    assert forall|j: int| 0 <= j < components.len() + 1 implies views(components.push(c))[j]
        == views(components).push(c@)[j] by {
        if j < components.len() {
            assert(components.push(c)[j] == components[j]);
        }
    }
    assert(views(components.push(c)) =~= views(components).push(c@));
}

/// The texts of `pieces`.
pub open spec fn texts(pieces: Seq<&str>) -> Seq<Seq<char>> {
    pieces.map_values(|p: &str| p@)
}

/// The pieces of `s` between the separators `/`, empty ones included:
/// one more piece than there are separators.
pub open spec fn segments(s: Seq<char>) -> Seq<Seq<char>>
    decreases s.len(),
{
    if s.len() == 0 {
        seq![Seq::empty()]
    } else if s.last() == '/' {
        segments(s.drop_last()).push(Seq::empty())
    } else {
        let before = segments(s.drop_last());
        before.update(before.len() - 1, before.last().push(s.last()))
    }
}

/// The component that a piece after the first stands for: none for an empty piece
/// or `.`.
pub open spec fn segment_components(segment: Seq<char>) -> Seq<ComponentView> {
    if segment.len() == 0 || segment == "."@ {
        Seq::empty()
    } else if segment == ".."@ {
        seq![ComponentView::ParentDir]
    } else {
        seq![ComponentView::Normal(segment)]
    }
}

/// The components that the first piece stands for, the root directory when the path
/// starts with `/`.
pub open spec fn first_components(first: Seq<char>, rooted: bool) -> Seq<ComponentView> {
    if rooted {
        seq![ComponentView::RootDir]
    } else if first == "."@ {
        seq![ComponentView::CurDir]
    } else {
        segment_components(first)
    }
}

/// The components of all the pieces in `segments`, taken as pieces after the first.
pub open spec fn later_components(segments: Seq<Seq<char>>) -> Seq<ComponentView>
    decreases segments.len(),
{
    if segments.len() == 0 {
        Seq::empty()
    } else {
        later_components(segments.drop_last()) + segment_components(segments.last())
    }
}

/// The components of the path written `s`.
pub open spec fn parse_path(s: Seq<char>) -> Seq<ComponentView> {
    let pieces = segments(s);
    first_components(pieces[0], s.len() > 0 && s[0] == '/') + later_components(
        pieces.drop_first(),
    )
}

/// The text of an optional string.
pub open spec fn text_option(text: Option<String>) -> Option<Seq<char>> {
    match text {
        Some(t) => Some(t@),
        None => None,
    }
}

/// The name that `path` ends with, where its last component is a name.
pub open spec fn file_name_of(path: Seq<ComponentView>) -> Option<Seq<char>> {
    if path.len() > 0 && path.last() is Normal {
        Some(path.last()->Normal_0)
    } else {
        None
    }
}

/// Whether the path starts at the root directory.
pub open spec fn is_rooted(path: Seq<ComponentView>) -> bool {
    path.len() > 0 && path[0] is RootDir
}

/// The components of `path` but `.`.
pub open spec fn without_cur_dirs(path: Seq<ComponentView>) -> Seq<ComponentView>
    decreases path.len(),
{
    if path.len() == 0 {
        Seq::empty()
    } else if path.last() is CurDir {
        without_cur_dirs(path.drop_last())
    } else {
        without_cur_dirs(path.drop_last()).push(path.last())
    }
}

/// Whether the first `k` components of `path` are one of its ancestors (the path
/// itself included) and match `base`, once `.` is left out of both.
///
/// The ancestors of a path starting at the root keep the root; those of a relative
/// path go down to the empty path. So a relative path never matches an absolute one.
pub open spec fn ancestor_matches(base: Seq<ComponentView>, path: Seq<ComponentView>, k: int) -> bool {
    &&& (if is_rooted(path) {
        1int
    } else {
        0int
    }) <= k <= path.len()
    &&& without_cur_dirs(path.take(k)) == without_cur_dirs(base)
}

/// Whether `k` is the length of the shortest ancestor of `path` that matches `base`.
pub open spec fn is_first_match(base: Seq<ComponentView>, path: Seq<ComponentView>, k: int) -> bool {
    &&& ancestor_matches(base, path, k)
    &&& forall|j: int| 0 <= j < k ==> !ancestor_matches(base, path, j)
}

/// The path `tail` appended to `head`: `tail` itself when it starts at the root or
/// when `head` is empty, else the components of both, without a `.` that starts `tail`.
pub open spec fn joined(head: Seq<ComponentView>, tail: Seq<ComponentView>) -> Seq<ComponentView> {
    if is_rooted(tail) || head.len() == 0 {
        tail
    } else if tail.len() > 0 && tail[0] is CurDir {
        head + tail.drop_first()
    } else {
        head + tail
    }
}

proof fn lemma_segments_nonempty(s: Seq<char>)
    ensures
        segments(s).len() >= 1,
    decreases s.len(),
{
    if s.len() > 0 {
        lemma_segments_nonempty(s.drop_last());
    }
}

/// Splits `s` at its separators.
fn split_segments<'a>(s: &'a str) -> (r: Vec<&'a str>)
    ensures
        texts(r@) == segments(s@),
{
    let n = s.unicode_len();
    let mut pieces: Vec<&'a str> = Vec::new();
    let mut start: usize = 0;
    let mut i: usize = 0;
    assert(s@.take(0) =~= Seq::<char>::empty());
    assert(s@.subrange(0, 0) =~= Seq::<char>::empty());
    assert(texts(pieces@) =~= Seq::<Seq<char>>::empty());
    while i < n
        invariant
            n == s@.len(),
            0 <= start <= i <= n,
            segments(s@.take(i as int)) == texts(pieces@).push(
                s@.subrange(start as int, i as int),
            ),
        decreases n - i,
    {
        let ghost before = texts(pieces@);
        assert(s@.take(i + 1).drop_last() =~= s@.take(i as int));
        if s.get_char(i) == '/' {
            let piece = s.substring_char(start, i);
            pieces.push(piece);
            start = i + 1;
            assert(texts(pieces@) =~= before.push(piece@));
            assert(s@.subrange(start as int, (i + 1) as int) =~= Seq::<char>::empty());
        } else {
            assert(s@.subrange(start as int, (i + 1) as int) =~= s@.subrange(
                start as int,
                i as int,
            ).push(s@[i as int]));
            assert(before.push(s@.subrange(start as int, i as int)).update(
                before.len() as int,
                s@.subrange(start as int, (i + 1) as int),
            ) =~= before.push(s@.subrange(start as int, (i + 1) as int)));
        }
        i += 1;
    }
    let ghost before = texts(pieces@);
    let last = s.substring_char(start, n);
    pieces.push(last);
    assert(s@.take(n as int) =~= s@);
    assert(texts(pieces@) =~= before.push(last@));
    pieces
}

/// Whether the piece is `.`.
fn is_dot(piece: &str) -> (r: bool)
    ensures
        r == (piece@ == "."@),
{
    proof {
        reveal_strlit(".");
    }
    if piece.unicode_len() == 1 && piece.get_char(0) == '.' {
        assert(piece@ =~= "."@);
        true
    } else {
        false
    }
}

/// Whether the piece is `..`.
fn is_dot_dot(piece: &str) -> (r: bool)
    ensures
        r == (piece@ == ".."@),
{
    proof {
        reveal_strlit("..");
    }
    if piece.unicode_len() == 2 && piece.get_char(0) == '.' && piece.get_char(1) == '.' {
        assert(piece@ =~= ".."@);
        true
    } else {
        false
    }
}

/// Appends the component that a piece after the first stands for, if any.
fn push_segment(components: &mut Vec<Component>, piece: &str)
    ensures
        views(final(components)@) == views(old(components)@) + segment_components(piece@),
{
    let ghost before = views(components@);
    if piece.unicode_len() == 0 || is_dot(piece) {
        assert(before + segment_components(piece@) =~= before);
    } else if is_dot_dot(piece) {
        components.push(Component::ParentDir);
        assert(views(components@) =~= before + segment_components(
            piece@,
        ));
    } else {
        components.push(Component::Normal(piece.to_owned()));
        assert(views(components@) =~= before + segment_components(
            piece@,
        ));
    }
}

impl Path {
    /// The path written `s`.
    pub fn new(s: &str) -> (r: Path)
        ensures
            r@ == parse_path(s@),
    {
        let pieces = split_segments(s);
        let ghost pieces_text = texts(pieces@);
        proof {
            lemma_segments_nonempty(s@);
        }
        let rooted = s.unicode_len() > 0 && s.get_char(0) == '/';
        let mut components: Vec<Component> = Vec::new();
        if rooted {
            components.push(Component::RootDir);
        } else if is_dot(pieces[0]) {
            components.push(Component::CurDir);
        } else {
            push_segment(&mut components, pieces[0]);
        }
        assert(views(components@) =~= first_components(
            pieces_text[0],
            rooted,
        ));
        let mut k: usize = 1;
        while k < pieces.len()
            invariant
                pieces_text == texts(pieces@),
                pieces_text == segments(s@),
                1 <= k <= pieces.len(),
                views(components@) == first_components(pieces_text[0], rooted)
                    + later_components(pieces_text.subrange(1, k as int)),
            decreases pieces.len() - k,
        {
            push_segment(&mut components, pieces[k]);
            assert(pieces_text.subrange(1, (k + 1) as int).drop_last() =~= pieces_text.subrange(1, k as int));
            assert(views(components@) =~= first_components(
                pieces_text[0],
                rooted,
            ) + later_components(pieces_text.subrange(1, (k + 1) as int)));
            k += 1;
        }
        assert(pieces_text.subrange(1, pieces.len() as int) =~= pieces_text.drop_first());
        Path { components }
    }

    /// The name of the last component, where it is a name (and not the root, `.` or
    /// `..`).
    pub fn file_name(&self) -> (r: Option<String>)
        ensures
            text_option(r) == file_name_of(self@),
    {
        let n = self.components.len();
        if n == 0 {
            return None;
        }
        match &self.components[n - 1] {
            Component::Normal(name) => Some(name.clone()),
            _ => None,
        }
    }

    /// The path of the first `k` components of `self`.
    fn prefix(&self, k: usize) -> (r: Path)
        requires
            k <= self@.len(),
        ensures
            r@ == self@.take(k as int),
    {
        let mut components: Vec<Component> = Vec::new();
        let mut i: usize = 0;
        while i < k
            invariant
                k <= self.components.len(),
                0 <= i <= k,
                views(components@) == self@.take(i as int),
            decreases k - i,
        {
            let c = self.components[i].duplicate();
            proof {
                lemma_views_push(components@, c);
            }
            components.push(c);
            assert(views(components@) =~= self@.take((i + 1) as int));
            i += 1;
        }
        Path { components }
    }

    /// The path of the components of `self` from the one at `k` on.
    fn suffix(&self, k: usize) -> (r: Path)
        requires
            k <= self@.len(),
        ensures
            r@ == self@.skip(k as int),
    {
        let mut components: Vec<Component> = Vec::new();
        let mut i: usize = k;
        while i < self.components.len()
            invariant
                k <= i <= self.components.len(),
                views(components@) == self@.subrange(k as int, i as int),
            decreases self.components.len() - i,
        {
            let c = self.components[i].duplicate();
            proof {
                lemma_views_push(components@, c);
            }
            components.push(c);
            assert(views(components@) =~= self@.subrange(
                k as int,
                (i + 1) as int,
            ));
            i += 1;
        }
        assert(self@.subrange(k as int, self@.len() as int) =~= self@.skip(k as int));
        Path { components }
    }

    /// `tail` appended to `self`.
    pub fn join(&self, tail: &Path) -> (r: Path)
        ensures
            r@ == joined(self@, tail@),
    {
        let tail_rooted = tail.components.len() > 0 && matches!(tail.components[0], Component::RootDir);
        if tail_rooted || self.components.len() == 0 {
            return tail.suffix(0);
        }
        let start: usize = if tail.components.len() > 0 && tail.components[0].is_cur_dir() {
            1
        } else {
            0
        };
        let mut components: Vec<Component> = Vec::new();
        let mut i: usize = 0;
        while i < self.components.len()
            invariant
                0 <= i <= self.components.len(),
                views(components@) == self@.take(i as int),
            decreases self.components.len() - i,
        {
            let c = self.components[i].duplicate();
            proof {
                lemma_views_push(components@, c);
            }
            components.push(c);
            assert(views(components@) =~= self@.take((i + 1) as int));
            i += 1;
        }
        let mut j: usize = start;
        while j < tail.components.len()
            invariant
                start <= j <= tail.components.len(),
                views(components@) == self@ + tail@.subrange(
                    start as int,
                    j as int,
                ),
            decreases tail.components.len() - j,
        {
            let c = tail.components[j].duplicate();
            proof {
                lemma_views_push(components@, c);
            }
            components.push(c);
            assert(views(components@) =~= self@ + tail@.subrange(
                start as int,
                (j + 1) as int,
            ));
            j += 1;
        }
        assert(tail@.subrange(start as int, tail@.len() as int) =~= tail@.skip(start as int));
        assert(self@.take(self@.len() as int) =~= self@);
        Path { components }
    }
}

proof fn lemma_prefix_push(w: Seq<ComponentView>, c: ComponentView, b: Seq<ComponentView>)
    ensures
        w.push(c).is_prefix_of(b) == (w.is_prefix_of(b) && w.len() < b.len() && b[w.len() as int]
            == c),
{
    if w.push(c).is_prefix_of(b) {
        assert(w =~= b.subrange(0, w.len() as int)) by {
            assert(w.push(c) =~= b.subrange(0, w.len() as int + 1));
            assert forall|i: int| 0 <= i < w.len() implies w[i] == b[i] by {
                assert(w.push(c)[i] == b.subrange(0, w.len() as int + 1)[i]);
            }
        }
        assert(w.push(c)[w.len() as int] == b.subrange(0, w.len() as int + 1)[w.len() as int]);
    }
    if w.is_prefix_of(b) && w.len() < b.len() && b[w.len() as int] == c {
        assert(w.push(c) =~= b.subrange(0, w.len() as int + 1));
    }
}

/// Finds the shortest ancestor of `path` matching `base`, if any.
///
/// The ancestors of `path` are its leading parts, from the whole path down to the root
/// (for a path that starts at the root) or to the empty path (for a relative path).
/// One matches `base` when both have the same components once `.` is left out of them.
/// So a relative path never matches an absolute path, and the other way round.
pub fn find_ancestor(base: &Path, path: &Path) -> (r: Option<Path>)
    ensures
        r is None <==> (forall|k: int| !ancestor_matches(base@, path@, k)),
        r is Some ==> exists|k: int| is_first_match(base@, path@, k) && r->Some_0@ == path@.take(k),
{
    let mut wanted: Vec<Component> = Vec::new();
    let mut i: usize = 0;
    while i < base.components.len()
        invariant
            0 <= i <= base.components.len(),
            views(wanted@) == without_cur_dirs(base@.take(i as int)),
        decreases base.components.len() - i,
    {
        assert(base@.take(i + 1).drop_last() =~= base@.take(i as int));
        if !base.components[i].is_cur_dir() {
            let ghost before = views(wanted@);
            let c = base.components[i].duplicate();
            proof {
                lemma_views_push(wanted@, c);
            }
            wanted.push(c);
            assert(views(wanted@) =~= before.push(base@[i as int]));
        }
        i += 1;
    }
    assert(base@.take(base@.len() as int) =~= base@);
    let ghost target = without_cur_dirs(base@);

    let rooted = path.components.len() > 0 && matches!(path.components[0], Component::RootDir);
    let low: usize = if rooted {
        1
    } else {
        0
    };
    let mut matched: usize = 0;
    let mut is_prefix = true;
    let mut k: usize = 0;
    while k < low
        invariant
            k <= low <= 1,
            low <= path.components.len(),
            rooted == is_rooted(path@),
            low == (if rooted { 1usize } else { 0usize }),
            views(wanted@) == target,
            target == without_cur_dirs(base@),
            matched as int == without_cur_dirs(path@.take(k as int)).len(),
            is_prefix == without_cur_dirs(path@.take(k as int)).is_prefix_of(target),
            matched <= k,
            forall|j: int| 0 <= j < k ==> !ancestor_matches(base@, path@, j),
        decreases low - k,
    {
        assert(path@.take(k + 1).drop_last() =~= path@.take(k as int));
        assert(path@.take(0) =~= Seq::<ComponentView>::empty());
        let ghost w = without_cur_dirs(path@.take(k as int));
        proof {
            lemma_prefix_push(w, path@[k as int], target);
        }
        if matched < wanted.len() && is_prefix {
            is_prefix = path.components[k].same_as(&wanted[matched]);
        } else {
            is_prefix = false;
        }
        matched += 1;
        k += 1;
    }
    loop
        invariant
            low <= k <= path.components.len(),
            rooted == is_rooted(path@),
            low == (if rooted { 1usize } else { 0usize }),
            views(wanted@) == target,
            target == without_cur_dirs(base@),
            matched as int == without_cur_dirs(path@.take(k as int)).len(),
            matched <= k,
            is_prefix == without_cur_dirs(path@.take(k as int)).is_prefix_of(target),
            forall|j: int| 0 <= j < k ==> !ancestor_matches(base@, path@, j),
        decreases path.components.len() - k,
    {
        let ghost w = without_cur_dirs(path@.take(k as int));
        assert(wanted@.len() == target.len());
        if is_prefix && matched == wanted.len() {
            assert(w =~= target.subrange(0, w.len() as int));
            assert(w =~= target);
            assert(is_first_match(base@, path@, k as int));
            return Some(path.prefix(k));
        }
        proof {
            if w == target {
                assert(target =~= target.subrange(0, target.len() as int));
            }
        }
        assert(!ancestor_matches(base@, path@, k as int));
        if k == path.components.len() {
            assert forall|j: int| !ancestor_matches(base@, path@, j) by {
                if 0 <= j < k {
                } else if j > path@.len() {
                }
            }
            return None;
        }
        assert(path@.take(k + 1).drop_last() =~= path@.take(k as int));
        if !path.components[k].is_cur_dir() {
            proof {
                lemma_prefix_push(w, path@[k as int], target);
            }
            if matched < wanted.len() && is_prefix {
                is_prefix = path.components[k].same_as(&wanted[matched]);
            } else {
                is_prefix = false;
            }
            matched += 1;
        }
        k += 1;
    }
}

/// The error of [`strip_ancestor`] and [`abbreviate_path`].
#[derive(Debug, Clone, Copy, PartialEq, Eq)]
pub enum StripAncestorError {
    /// `base` is not an ancestor of `path`.
    BaseNotAnAcestorError,
}

impl StripAncestorError {
    /// The message for this error.
    pub fn message(&self) -> (r: &'static str) {
        "`base` was not an ancestor of `path`."
    }
}

/// `path` relative to its shortest ancestor that matches `base` (see [`find_ancestor`]).
pub fn strip_ancestor(base: &Path, path: &Path) -> (r: Result<Path, StripAncestorError>)
    ensures
        r is Err <==> (forall|k: int| !ancestor_matches(base@, path@, k)),
        r is Ok ==> exists|k: int| is_first_match(base@, path@, k) && r->Ok_0@ == path@.skip(k),
{
    match find_ancestor(base, path) {
        None => Err(StripAncestorError::BaseNotAnAcestorError),
        Some(ancestor) => {
            Ok(path.suffix(ancestor.components.len()))
        },
    }
}

/// `path` with its shortest ancestor that matches `base` replaced by `abbreviation`.
pub fn abbreviate_path(base: &Path, abbreviation: &Path, path: &Path) -> (r: Result<
    Path,
    StripAncestorError,
>)
    ensures
        r is Err <==> (forall|k: int| !ancestor_matches(base@, path@, k)),
        r is Ok ==> exists|k: int|
            is_first_match(base@, path@, k) && r->Ok_0@ == joined(abbreviation@, path@.skip(k)),
{
    match strip_ancestor(base, path) {
        Err(e) => Err(e),
        Ok(relative) => Ok(abbreviation.join(&relative)),
    }
}

/// What [`abbreviate_home`] makes of a path.
#[derive(Debug, Clone, PartialEq, Eq)]
pub enum AbbreviateHomeResult {
    /// The abbreviated path.
    Abbreviated(Path),
    /// The path, unchanged, as the home directory is not one of its ancestors.
    HomeNotAnAcestor {
        /// The path, unchanged.
        path: Path,
    },
    /// The path, unchanged, as there is no home directory.
    NoHome {
        /// The path, unchanged.
        path: Path,
    },
}

/// `path` with the home directory `home` replaced by `~`, where `home` is one of
/// its ancestors.
pub fn abbreviate_home(home: Option<&Path>, path: Path) -> (r: AbbreviateHomeResult)
    ensures
        match r {
            AbbreviateHomeResult::NoHome { path: p } => home is None && p == path,
            AbbreviateHomeResult::HomeNotAnAcestor { path: p } => home is Some && p == path
                && forall|k: int| !ancestor_matches(home->Some_0@, path@, k),
            AbbreviateHomeResult::Abbreviated(p) => home is Some && exists|k: int|
                is_first_match(home->Some_0@, path@, k) && p@ == joined(
                    seq![ComponentView::Normal("~"@)],
                    path@.skip(k),
                ),
        },
{
    match home {
        None => AbbreviateHomeResult::NoHome { path },
        Some(home) => {
            let tilde = Path { components: vec![Component::Normal("~".to_owned())] };
            assert(tilde@ =~= seq![ComponentView::Normal("~"@)]);
            match abbreviate_path(home, &tilde, &path) {
                Ok(abbreviated) => AbbreviateHomeResult::Abbreviated(abbreviated),
                Err(StripAncestorError::BaseNotAnAcestorError) => {
                    AbbreviateHomeResult::HomeNotAnAcestor { path }
                },
            }
        },
    }
}

} // verus!
