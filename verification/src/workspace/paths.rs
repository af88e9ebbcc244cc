//! Paths as the workspace boundary compares them: absolute, `/`-separated, compared component by
//! component as `Path::starts_with` and `Path::eq` do.
use vstd::prelude::*;
use crate::domain::text_view;
use crate::text::{
    chars_equal, chars_of, first_match, has_char, lemma_first_match, lemma_first_match_is,
    lemma_first_match_none, matches_at, pieces_view, push_chars, split, split_on, string_of,
};

verus! {

/// Whether a path is absolute.
pub open spec fn is_absolute(p: Seq<char>) -> bool {
    p.len() > 0 && p[0] == '/'
}

/// Whether a piece between separators names a directory entry (empty pieces and `.` do not).
pub open spec fn is_named_part(part: Seq<char>) -> bool {
    part.len() > 0 && part != seq!['.']
}

/// The named pieces, in order.
pub open spec fn named_parts(pieces: Seq<Seq<char>>) -> Seq<Seq<char>>
    decreases pieces.len(),
{
    if pieces.len() == 0 {
        Seq::empty()
    } else if is_named_part(pieces.last()) {
        named_parts(pieces.drop_last()).push(pieces.last())
    } else {
        named_parts(pieces.drop_last())
    }
}

/// The components of a path below its root.
pub open spec fn components(p: Seq<char>) -> Seq<Seq<char>> {
    named_parts(split_on(p, seq!['/']))
}

/// Whether `base` is a prefix of `p`, component by component.
pub open spec fn path_starts_with(p: Seq<char>, base: Seq<char>) -> bool {
    &&& is_absolute(p) == is_absolute(base)
    &&& components(base).len() <= components(p).len()
    &&& components(p).subrange(0, components(base).len() as int) == components(base)
}

/// Whether two paths name the same location, component by component.
pub open spec fn same_path(p: Seq<char>, q: Seq<char>) -> bool {
    is_absolute(p) == is_absolute(q) && components(p) == components(q)
}

/// The text of an absolute path with the given components.
pub open spec fn absolute_text(parts: Seq<Seq<char>>) -> Seq<char>
    decreases parts.len(),
{
    if parts.len() == 0 {
        seq!['/']
    } else if parts.len() == 1 {
        seq!['/'] + parts[0]
    } else {
        absolute_text(parts.drop_last()) + seq!['/'] + parts.last()
    }
}

/// The components after resolving `..` against the components before it.
pub open spec fn resolve_parent_parts(parts: Seq<Seq<char>>) -> Seq<Seq<char>>
    decreases parts.len(),
{
    if parts.len() == 0 {
        Seq::empty()
    } else {
        let before = resolve_parent_parts(parts.drop_last());
        if parts.last() == seq!['.', '.'] {
            if before.len() > 0 {
                before.drop_last()
            } else {
                before
            }
        } else {
            before.push(parts.last())
        }
    }
}

/// `name` below `base` (`Path::join` with a relative name): a separator is put between them
/// unless `base` is empty or already ends with one.
pub open spec fn joined(base: Seq<char>, name: Seq<char>) -> Seq<char> {
    if base.len() == 0 || base.last() == '/' {
        base + name
    } else {
        base + seq!['/'] + name
    }
}

/// The absolute, `.`- and `..`-free form of a path, relative paths being taken from `current_dir`.
pub open spec fn normalized(path: Seq<char>, current_dir: Seq<char>) -> Seq<char> {
    let absolute = if is_absolute(path) {
        path
    } else {
        joined(current_dir, path)
    };
    absolute_text(resolve_parent_parts(components(absolute)))
}

/// Prefixes of the same sequence are ordered: the shorter is a prefix of the longer.
pub proof fn lemma_prefixes_are_ordered(s: Seq<Seq<char>>, a: Seq<Seq<char>>, b: Seq<Seq<char>>)
    requires
        a.len() <= s.len(),
        b.len() <= s.len(),
        s.subrange(0, a.len() as int) == a,
        s.subrange(0, b.len() as int) == b,
    ensures
        a.len() <= b.len() ==> b.subrange(0, a.len() as int) == a,
        b.len() <= a.len() ==> a.subrange(0, b.len() as int) == b,
{
    if a.len() <= b.len() {
        assert(b.subrange(0, a.len() as int) =~= s.subrange(0, a.len() as int));
    } else {
        assert(a.subrange(0, b.len() as int) =~= s.subrange(0, b.len() as int));
    }
}

/// Component prefixes compose: a path below `q`, which is below `r`, is below `r`.
pub proof fn lemma_starts_with_transitive(p: Seq<char>, q: Seq<char>, r: Seq<char>)
    requires
        path_starts_with(p, q),
        path_starts_with(q, r),
    ensures
        path_starts_with(p, r),
{
    let cp = components(p);
    let cq = components(q);
    let cr = components(r);
    assert(cp.subrange(0, cr.len() as int) =~= cq.subrange(0, cr.len() as int));
}

/// Two locations that both contain the same path overlap: one contains the other.
pub proof fn lemma_common_descendant_overlaps(p: Seq<char>, a: Seq<char>, b: Seq<char>)
    requires
        path_starts_with(p, a),
        path_starts_with(p, b),
    ensures
        path_starts_with(a, b) || path_starts_with(b, a),
{
    lemma_prefixes_are_ordered(components(p), components(a), components(b));
}

fn named_parts_of(pieces: &Vec<Vec<char>>) -> (r: Vec<Vec<char>>)
    ensures
        pieces_view(r@) == named_parts(pieces_view(pieces@)),
{
    let mut r: Vec<Vec<char>> = Vec::new();
    let mut i: usize = 0;
    let dot = vec!['.'];
    assert(dot@ =~= seq!['.']);
    while i < pieces.len()
        invariant
            i <= pieces@.len(),
            dot@ == seq!['.'],
            pieces_view(r@) == named_parts(pieces_view(pieces@).subrange(0, i as int)),
        decreases pieces@.len() - i,
    {
        let piece = &pieces[i];
        let ghost before = r@;
        assert(pieces_view(pieces@).subrange(0, i + 1).drop_last() =~= pieces_view(pieces@).subrange(0, i as int));
        if piece.len() > 0 && !chars_equal(piece, &dot) {
            r.push(piece.clone());
            assert(r@.drop_last() =~= before);
            assert(pieces_view(r@) =~= pieces_view(before).push(piece@));
        }
        i = i + 1;
    }
    assert(pieces_view(pieces@).subrange(0, pieces@.len() as int) =~= pieces_view(pieces@));
    r
}

/// The components of a path below its root.
pub fn path_components(p: &[char]) -> (r: Vec<Vec<char>>)
    ensures
        pieces_view(r@) == components(p@),
{
    let slash = vec!['/'];
    assert(slash@ =~= seq!['/']);
    let pieces = split(p, &slash);
    named_parts_of(&pieces)
}

fn parts_equal(a: &Vec<Vec<char>>, b: &Vec<Vec<char>>, n: usize) -> (r: bool)
    requires
        n <= a@.len(),
        n <= b@.len(),
    ensures
        r == (pieces_view(a@).subrange(0, n as int) == pieces_view(b@).subrange(0, n as int)),
{
    let mut i: usize = 0;
    while i < n
        invariant
            n <= a@.len(),
            n <= b@.len(),
            i <= n,
            forall|j: int| 0 <= j < i ==> a@[j]@ == b@[j]@,
        decreases n - i,
    {
        if !chars_equal(&a[i], &b[i]) {
            assert(pieces_view(a@).subrange(0, n as int)[i as int] != pieces_view(b@).subrange(0, n as int)[i as int]);
            return false;
        }
        i = i + 1;
    }
    assert(pieces_view(a@).subrange(0, n as int) =~= pieces_view(b@).subrange(0, n as int));
    true
}

/// Whether a path text is absolute.
pub fn absolute(p: &[char]) -> (r: bool)
    ensures
        r == is_absolute(p@),
{
    p.len() > 0 && p[0] == '/'
}

/// Whether `base` is a prefix of `p`, component by component (`Path::starts_with`).
pub fn starts_with_path(p: &str, base: &str) -> (r: bool)
    ensures
        r == path_starts_with(p@, base@),
{
    let pc = chars_of(p);
    let bc = chars_of(base);
    let cp = path_components(&pc);
    let cb = path_components(&bc);
    if absolute(&pc) != absolute(&bc) || cb.len() > cp.len() {
        return false;
    }
    let r = parts_equal(&cp, &cb, cb.len());
    assert(pieces_view(cb@).subrange(0, cb@.len() as int) =~= pieces_view(cb@));
    r
}

/// Whether two paths name the same location (`Path::eq`).
pub fn paths_equal(p: &str, q: &str) -> (r: bool)
    ensures
        r == same_path(p@, q@),
{
    let pc = chars_of(p);
    let qc = chars_of(q);
    let cp = path_components(&pc);
    let cq = path_components(&qc);
    assert(pieces_view(cp@).len() == cp@.len());
    assert(pieces_view(cq@).len() == cq@.len());
    if absolute(&pc) != absolute(&qc) || cp.len() != cq.len() {
        return false;
    }
    let r = parts_equal(&cp, &cq, cp.len());
    assert(pieces_view(cp@).subrange(0, cp@.len() as int) =~= pieces_view(cp@));
    assert(pieces_view(cq@).subrange(0, cq@.len() as int) =~= pieces_view(cq@));
    r
}

/// `name` below `base` (`Path::join` with a relative name).
pub fn join(base: &str, name: &str) -> (r: String)
    ensures
        r@ == joined(base@, name@),
{
    let b = chars_of(base);
    let mut r = String::new();
    r.append(base);
    if !(b.len() == 0 || b[b.len() - 1] == '/') {
        r.append("/");
        assert("/"@ =~= seq!['/']) by {
            reveal_strlit("/");
        }
    }
    r.append(name);
    r
}

fn absolute_text_of(parts: &Vec<Vec<char>>) -> (r: String)
    ensures
        r@ == absolute_text(pieces_view(parts@)),
{
    let mut r = String::new();
    crate::text::push_char(&mut r, '/');
    if parts.len() == 0 {
        return r;
    }
    push_chars(&mut r, parts[0].as_slice());
    let mut i: usize = 1;
    assert(pieces_view(parts@).subrange(0, 1) =~= seq![parts@[0]@]);
    while i < parts.len()
        invariant
            1 <= i <= parts@.len(),
            r@ == absolute_text(pieces_view(parts@).subrange(0, i as int)),
        decreases parts@.len() - i,
    {
        crate::text::push_char(&mut r, '/');
        push_chars(&mut r, parts[i].as_slice());
        assert(pieces_view(parts@).subrange(0, i + 1).drop_last() =~= pieces_view(parts@).subrange(0, i as int));
        i = i + 1;
    }
    assert(pieces_view(parts@).subrange(0, parts@.len() as int) =~= pieces_view(parts@));
    r
}

fn resolve_parents(parts: &Vec<Vec<char>>) -> (r: Vec<Vec<char>>)
    ensures
        pieces_view(r@) == resolve_parent_parts(pieces_view(parts@)),
{
    let up = vec!['.', '.'];
    assert(up@ =~= seq!['.', '.']);
    let mut r: Vec<Vec<char>> = Vec::new();
    let mut i: usize = 0;
    while i < parts.len()
        invariant
            i <= parts@.len(),
            up@ == seq!['.', '.'],
            pieces_view(r@) == resolve_parent_parts(pieces_view(parts@).subrange(0, i as int)),
        decreases parts@.len() - i,
    {
        let ghost before = r@;
        assert(pieces_view(parts@).subrange(0, i + 1).drop_last() =~= pieces_view(parts@).subrange(0, i as int));
        if chars_equal(&parts[i], &up) {
            if r.len() > 0 {
                r.pop();
                assert(pieces_view(r@) =~= pieces_view(before).drop_last());
            }
        } else {
            r.push(parts[i].clone());
            assert(r@.drop_last() =~= before);
            assert(pieces_view(r@) =~= pieces_view(before).push(parts@[i as int]@));
        }
        i = i + 1;
    }
    assert(pieces_view(parts@).subrange(0, parts@.len() as int) =~= pieces_view(parts@));
    r
}

/// The absolute, `.`- and `..`-free form of `path`, relative paths being taken from `current_dir`.
pub fn normalized_absolute_path(path: &str, current_dir: &str) -> (r: String)
    ensures
        r@ == normalized(path@, current_dir@),
{
    let pc = chars_of(path);
    let absolute_path = if absolute(&pc) {
        pc
    } else {
        let j = join(current_dir, path);
        chars_of(j.as_str())
    };
    let parts = path_components(&absolute_path);
    let resolved = resolve_parents(&parts);
    absolute_text_of(&resolved)
}

/// `parts` appended below `base`, one by one (`PathBuf::push` of each).
pub open spec fn append_parts(base: Seq<char>, parts: Seq<Seq<char>>) -> Seq<char>
    decreases parts.len(),
{
    if parts.len() == 0 {
        base
    } else {
        joined(append_parts(base, parts.drop_last()), parts.last())
    }
}

/// Where the resolution of a path for creation stands.
pub enum CreationResolutionView {
    /// The current directory is needed to make a relative path absolute.
    AskCurrentDirectory,
    /// The canonical form of this path is needed, if it exists.
    AskCanonical(Seq<char>),
    Resolved(Seq<char>),
    /// Not even the root exists.
    NoExistingParent,
    /// A prefix could not be read for another reason than its absence: the resolution fails
    /// with that failure.
    Failed,
}

/// What the search for a prefix's canonical form found.
pub enum CanonicalFormView {
    Existing(Seq<char>),
    Missing,
    Unreadable,
}

/// The resolution, the first `k` candidates having been found missing: the `k`-th candidate drops
/// the last `k` components, which are appended again below the first candidate that exists.
pub open spec fn resolution_from(
    parts: Seq<Seq<char>>,
    found: Seq<CanonicalFormView>,
    k: int,
) -> CreationResolutionView
    decreases parts.len() - k,
{
    if k < 0 || k > parts.len() {
        CreationResolutionView::NoExistingParent
    } else if k >= found.len() {
        CreationResolutionView::AskCanonical(absolute_text(parts.subrange(0, parts.len() - k)))
    } else {
        match found[k] {
            CanonicalFormView::Existing(existing) => CreationResolutionView::Resolved(
                append_parts(existing, parts.subrange(parts.len() - k, parts.len() as int)),
            ),
            CanonicalFormView::Unreadable => CreationResolutionView::Failed,
            CanonicalFormView::Missing => if k == parts.len() {
                CreationResolutionView::NoExistingParent
            } else {
                resolution_from(parts, found, k + 1)
            },
        }
    }
}

/// Resolves a path that may not exist yet: it is made absolute and free of `.` and `..`; then the
/// longest prefix that exists is resolved to its canonical form, and the missing components are
/// appended below it. `found` holds what was found of the canonical forms asked for so far; only
/// a prefix that does not exist lets the resolution go on to the next shorter one.
pub open spec fn creation_resolution(
    path: Seq<char>,
    current_dir: Option<Seq<char>>,
    found: Seq<CanonicalFormView>,
) -> CreationResolutionView {
    if !is_absolute(path) && current_dir is None {
        CreationResolutionView::AskCurrentDirectory
    } else {
        let absolute = if is_absolute(path) {
            path
        } else {
            joined(current_dir->0, path)
        };
        resolution_from(resolve_parent_parts(components(absolute)), found, 0)
    }
}

/// Where the resolution of a path for creation stands.
#[derive(Debug, PartialEq, Eq)]
pub enum CreationResolution {
    AskCurrentDirectory,
    AskCanonical(String),
    Resolved(String),
    NoExistingParent,
    Failed,
}

/// What the search for a prefix's canonical form found.
#[derive(Debug, PartialEq, Eq)]
pub enum CanonicalForm {
    Existing(String),
    Missing,
    Unreadable,
}

/// The content of a resolution step.
pub open spec fn creation_view(r: CreationResolution) -> CreationResolutionView {
    match r {
        CreationResolution::AskCurrentDirectory => CreationResolutionView::AskCurrentDirectory,
        CreationResolution::AskCanonical(p) => CreationResolutionView::AskCanonical(p@),
        CreationResolution::Resolved(p) => CreationResolutionView::Resolved(p@),
        CreationResolution::NoExistingParent => CreationResolutionView::NoExistingParent,
        CreationResolution::Failed => CreationResolutionView::Failed,
    }
}

/// The content of what was found.
pub open spec fn canonical_view(f: CanonicalForm) -> CanonicalFormView {
    match f {
        CanonicalForm::Existing(p) => CanonicalFormView::Existing(p@),
        CanonicalForm::Missing => CanonicalFormView::Missing,
        CanonicalForm::Unreadable => CanonicalFormView::Unreadable,
    }
}

/// The content of what was found so far.
pub open spec fn found_view(found: Seq<CanonicalForm>) -> Seq<CanonicalFormView> {
    found.map_values(|f: CanonicalForm| canonical_view(f))
}

fn first_parts(parts: &Vec<Vec<char>>, m: usize) -> (r: Vec<Vec<char>>)
    requires
        m <= parts@.len(),
    ensures
        pieces_view(r@) == pieces_view(parts@).subrange(0, m as int),
{
    let mut r: Vec<Vec<char>> = Vec::new();
    let mut i: usize = 0;
    while i < m
        invariant
            m <= parts@.len(),
            i <= m,
            pieces_view(r@) == pieces_view(parts@).subrange(0, i as int),
        decreases m - i,
    {
        let ghost before = r@;
        r.push(parts[i].clone());
        assert(pieces_view(r@) =~= pieces_view(before).push(parts@[i as int]@));
        assert(pieces_view(parts@).subrange(0, i + 1) =~= pieces_view(parts@).subrange(0, i as int).push(parts@[i as int]@));
        i = i + 1;
    }
    r
}

fn append_all(base: &str, parts: &Vec<Vec<char>>, from: usize) -> (r: String)
    requires
        from <= parts@.len(),
    ensures
        r@ == append_parts(base@, pieces_view(parts@).subrange(from as int, parts@.len() as int)),
{
    let mut r = crate::text::owned(base);
    let mut i: usize = from;
    assert(pieces_view(parts@).subrange(from as int, from as int) =~= Seq::<Seq<char>>::empty());
    while i < parts.len()
        invariant
            from <= i <= parts@.len(),
            r@ == append_parts(base@, pieces_view(parts@).subrange(from as int, i as int)),
        decreases parts@.len() - i,
    {
        let name = string_of(parts[i].as_slice());
        r = join(r.as_str(), name.as_str());
        assert(pieces_view(parts@).subrange(from as int, i + 1).drop_last() =~= pieces_view(parts@).subrange(from as int, i as int));
        i = i + 1;
    }
    r
}

/// Resolves a path that may not exist yet, one canonical form at a time.
pub fn resolved_path_for_creation(path: &str, current_dir: &Option<String>, found: &Vec<CanonicalForm>) -> (r: CreationResolution)
    ensures
        creation_view(r) == creation_resolution(path@, text_view(*current_dir), found_view(found@)),
{
    let pc = chars_of(path);
    let absolute_path = if absolute(&pc) {
        pc
    } else {
        match current_dir {
            Some(dir) => {
                let j = join(dir.as_str(), path);
                chars_of(j.as_str())
            },
            None => return CreationResolution::AskCurrentDirectory,
        }
    };
    let parts = resolve_parents(&path_components(&absolute_path));
    let ghost ps = pieces_view(parts@);
    let ghost fs = found_view(found@);
    let n = parts.len();
    assert(creation_resolution(path@, text_view(*current_dir), fs) == resolution_from(ps, fs, 0));
    let mut k: usize = 0;
    while k < found.len()
        invariant
            creation_resolution(path@, text_view(*current_dir), fs) == resolution_from(ps, fs, 0),
            ps == pieces_view(parts@),
            fs == found_view(found@),
            n == parts@.len(),
            k <= n,
            resolution_from(ps, fs, 0) == resolution_from(ps, fs, k as int),
        decreases n - k,
    {
        match &found[k] {
            CanonicalForm::Existing(existing) => {
                assert(fs[k as int] == CanonicalFormView::Existing(existing@));
                return CreationResolution::Resolved(append_all(existing.as_str(), &parts, n - k));
            },
            CanonicalForm::Unreadable => {
                assert(fs[k as int] == CanonicalFormView::Unreadable);
                return CreationResolution::Failed;
            },
            CanonicalForm::Missing => {
                assert(fs[k as int] == CanonicalFormView::Missing);
                if k == n {
                    return CreationResolution::NoExistingParent;
                }
            },
        }
        k = k + 1;
    }
    let candidate = first_parts(&parts, n - k);
    CreationResolution::AskCanonical(absolute_text_of(&candidate))
}

/// Splitting at `/` a text, a `/` and a name without `/` gives the pieces of the text, then the
/// name.
pub proof fn lemma_split_appended_name(a: Seq<char>, b: Seq<char>)
    requires
        !has_char(b, '/'),
    ensures
        split_on(a + seq!['/'] + b, seq!['/']) == split_on(a, seq!['/']) + seq![b],
    decreases a.len(),
{
    let sep = seq!['/'];
    let s = a + sep + b;
    lemma_first_match(a, sep);
    assert forall|j: int| 0 <= j < a.len() implies matches_at(s, j, sep) == matches_at(a, j, sep) by {
        assert(s.subrange(j, j + 1) =~= seq![s[j]]);
        assert(a.subrange(j, j + 1) =~= seq![a[j]]);
    }
    match first_match(a, sep) {
        None => {
            assert(s.subrange(a.len() as int, a.len() as int + 1) =~= sep);
            lemma_first_match_is(s, sep, a.len() as int);
            assert forall|j: int| 0 <= j implies !matches_at(b, j, sep) by {
                if matches_at(b, j, sep) {
                    assert(b.subrange(j, j + 1)[0] == b[j]);
                }
            }
            lemma_first_match_none(b, sep);
            assert(s.subrange(0, a.len() as int) =~= a);
            assert(s.subrange(a.len() as int + 1, s.len() as int) =~= b);
            assert(split_on(b, sep) == seq![b]);
            assert(split_on(a, sep) == seq![a]);
            assert(split_on(s, sep) == seq![a] + split_on(b, sep));
            assert(seq![a] + seq![b] =~= split_on(a, sep) + seq![b]);
        },
        Some(i) => {
            lemma_first_match_is(s, sep, i);
            let rest = a.subrange(i + 1, a.len() as int);
            lemma_split_appended_name(rest, b);
            assert(s.subrange(0, i) =~= a.subrange(0, i));
            assert(s.subrange(i + 1, s.len() as int) =~= rest + sep + b);
            assert(split_on(s, sep) == seq![a.subrange(0, i)] + split_on(rest + sep + b, sep));
            assert(split_on(a, sep) == seq![a.subrange(0, i)] + split_on(rest, sep));
            assert(seq![a.subrange(0, i)] + (split_on(rest, sep) + seq![b]) =~= (seq![a.subrange(0, i)] + split_on(rest, sep)) + seq![b]);
        },
    }
}

/// A name without `/` that names a directory entry becomes the last component below `base`.
pub proof fn lemma_components_of_joined(base: Seq<char>, name: Seq<char>)
    requires
        !has_char(name, '/'),
        is_named_part(name),
    ensures
        components(joined(base, name)) == components(base).push(name),
{
    let sep = seq!['/'];
    if base.len() == 0 {
        assert forall|j: int| 0 <= j implies !matches_at(name, j, sep) by {
            if matches_at(name, j, sep) {
                assert(name.subrange(j, j + 1)[0] == name[j]);
            }
        }
        lemma_first_match_none(name, sep);
        assert(joined(base, name) =~= name);
        assert(split_on(name, sep) =~= seq![name]);
        assert(split_on(base, sep) =~= seq![base]);
        assert(seq![name].drop_last() =~= Seq::<Seq<char>>::empty());
        assert(seq![base].drop_last() =~= Seq::<Seq<char>>::empty());
    } else if base.last() == '/' {
        let w = base.drop_last();
        assert(base =~= w + sep + Seq::<char>::empty());
        assert(joined(base, name) =~= w + sep + name);
        lemma_split_appended_name(w, name);
        lemma_split_appended_name(w, Seq::<char>::empty());
        let pw = split_on(w, sep);
        assert((pw + seq![name]).drop_last() =~= pw);
        assert((pw + seq![Seq::<char>::empty()]).drop_last() =~= pw);
    } else {
        assert(joined(base, name) =~= base + sep + name);
        lemma_split_appended_name(base, name);
        let pb = split_on(base, sep);
        assert((pb + seq![name]).drop_last() =~= pb);
    }
}

} // verus!
