use vstd::prelude::*;
use vstd::string::StringSliceAdditionalSpecFns;
use crate::error::{Field, ValidationError};

verus! {

/// A character that may open a cell name: `[a-z0-9]`.
pub open spec fn is_name_start(c: char) -> bool {
    ('a' <= c && c <= 'z') || ('0' <= c && c <= '9')
}

/// A character that may follow the first one in a cell name: `[a-z0-9-]`.
pub open spec fn is_name_char(c: char) -> bool {
    is_name_start(c) || c == '-'
}

/// `s` matches `[a-z0-9][a-z0-9-]*`.
pub open spec fn is_cell_name(s: Seq<char>) -> bool {
    &&& s.len() > 0
    &&& is_name_start(s[0])
    &&& forall|i: int| 1 <= i < s.len() ==> #[trigger] is_name_char(s[i])
}

/// Position `j` of `s` is either a name character, or a separator that is
/// followed by the start of a further name.
pub open spec fn path_char_ok(s: Seq<char>, j: int) -> bool {
    is_name_char(s[j]) || (s[j] == '/' && j + 1 < s.len() && is_name_start(s[j + 1]))
}

/// `s` is a cell path: empty, or cell names joined by `/`.
pub open spec fn is_cell_path(s: Seq<char>) -> bool {
    s.len() == 0 || (is_name_start(s[0]) && forall|j: int|
        0 <= j < s.len() ==> #[trigger] path_char_ok(s, j))
}

/// The separator between the segments of a cell path.
pub open spec fn sep() -> Seq<char> {
    seq!['/']
}

/// Segments joined by the separator.
pub open spec fn join(segs: Seq<Seq<char>>) -> Seq<char>
    decreases segs.len(),
{
    if segs.len() == 0 {
        Seq::empty()
    } else if segs.len() == 1 {
        segs[0]
    } else {
        segs[0] + sep() + join(segs.drop_first())
    }
}

/// Relies on `String::from_utf8`: on ASCII bytes it succeeds, and the string
/// holds one character per byte.
#[verifier::external_body]
fn ascii_string(bytes: Vec<u8>) -> (r: String)
    requires
        forall|i: int| 0 <= i < bytes@.len() ==> bytes@[i] < 128,
    ensures
        r@.len() == bytes@.len(),
        forall|i: int| 0 <= i < bytes@.len() ==> r@[i] == bytes@[i] as char,
{
    match String::from_utf8(bytes) {
        Ok(s) => s,
        Err(_) => String::new(),
    }
}

/// The number of characters of an ASCII string.
fn ascii_len(s: &str) -> (n: usize)
    requires
        s.is_ascii(),
    ensures
        n == s@.len(),
{
    broadcast use vstd::string::is_ascii_spec_bytes;

    let b = s.as_bytes();
    assert(s.spec_bytes() =~= Seq::new(s@.len(), |k: int| s@[k] as u8));
    b.len()
}

/// Copies the characters `from..to` of an ASCII string into a new string.
fn ascii_substring(s: &str, from: usize, to: usize) -> (r: String)
    requires
        s.is_ascii(),
        from <= to <= s@.len(),
    ensures
        r@ == s@.subrange(from as int, to as int),
{
    broadcast use vstd::string::is_ascii_spec_bytes;

    let b = s.as_bytes();
    assert(b@ == s.spec_bytes());
    let mut out: Vec<u8> = Vec::new();
    let mut i: usize = from;
    while i < to
        invariant
            from <= i <= to <= s@.len(),
            b@ == s.spec_bytes(),
            s.spec_bytes() =~= Seq::new(s@.len(), |k: int| s@[k] as u8),
            s.is_ascii(),
            out@.len() == i - from,
            forall|k: int| 0 <= k < out@.len() ==> out@[k] == s@[from + k] as u8,
        decreases to - i,
    {
        out.push(b[i]);
        i = i + 1;
    }
    let r = ascii_string(out);
    assert forall|k: int| 0 <= k < r@.len() implies r@[k] == s@.subrange(
        from as int,
        to as int,
    )[k] by {
        let c = s@[from + k];
        assert('\0' <= c <= '\u{7f}');
    }
    assert(r@ =~= s@.subrange(from as int, to as int));
    r
}


proof fn lemma_path_is_ascii(s: Seq<char>)
    requires
        is_cell_path(s),
    ensures
        vstd::utf8::is_ascii_chars(s),
{
    assert forall|i: int| 0 <= i < s.len() implies '\0' <= #[trigger] s[i] <= '\u{7f}' by {
        assert(path_char_ok(s, i));
    }
}

/// The byte `c` is `[a-z0-9]`.
fn byte_is_name_start(c: u8) -> (r: bool)
    ensures
        r == is_name_start(c as char),
{
    (97u8 <= c && c <= 122u8) || (48u8 <= c && c <= 57u8)
}

/// The byte `c` is `[a-z0-9-]`.
fn byte_is_name_char(c: u8) -> (r: bool)
    ensures
        r == is_name_char(c as char),
{
    byte_is_name_start(c) || c == 45u8
}

/// Decides whether `s` is a cell path.
fn scan_path(s: &str) -> (r: bool)
    ensures
        r == is_cell_path(s@),
{
    broadcast use vstd::string::is_ascii_spec_bytes;

    if !s.is_ascii() {
        proof {
            if is_cell_path(s@) {
                lemma_path_is_ascii(s@);
            }
        }
        return false;
    }
    let b = s.as_bytes();
    let n = b.len();
    assert(b@ == s.spec_bytes());
    assert(s.spec_bytes() =~= Seq::new(s@.len(), |k: int| s@[k] as u8));
    assert forall|k: int| 0 <= k < s@.len() implies (#[trigger] b@[k]) as char == s@[k] by {
        assert('\0' <= s@[k] <= '\u{7f}');
    }
    if n == 0 {
        return true;
    }
    if !byte_is_name_start(b[0]) {
        return false;
    }
    let mut j: usize = 0;
    while j < n
        invariant
            n == b@.len() == s@.len(),
            forall|k: int| 0 <= k < s@.len() ==> (#[trigger] b@[k]) as char == s@[k],
            j <= n,
            forall|k: int| 0 <= k < j ==> #[trigger] path_char_ok(s@, k),
        decreases n - j,
    {
        let c = b[j];
        let ok = if byte_is_name_char(c) {
            true
        } else if c == 47u8 {
            j + 1 < n && byte_is_name_start(b[j + 1])
        } else {
            false
        };
        if !ok {
            assert(!path_char_ok(s@, j as int));
            return false;
        }
        j = j + 1;
    }
    true
}

/// Decides whether `s` is a cell name.
fn scan_name(s: &str) -> (r: bool)
    ensures
        r == is_cell_name(s@),
{
    if !scan_path(s) {
        proof {
            if is_cell_name(s@) {
                assert forall|j: int| 0 <= j < s@.len() implies #[trigger] path_char_ok(s@, j) by {
                    if j >= 1 {
                        assert(is_name_char(s@[j]));
                    }
                }
            }
        }
        return false;
    }
    if s.is_empty() {
        return false;
    }
    if let Some(found) = find_separator(s) {
        proof {
            assert(s@[found as int] == '/');
            assert(!is_name_char(s@[found as int]));
        }
        return false;
    }
    proof {
        assert forall|i: int| 1 <= i < s@.len() implies #[trigger] is_name_char(s@[i]) by {
            assert(path_char_ok(s@, i));
            assert(s@[i] != '/');
        }
    }
    true
}

/// The position of the first separator in a cell path, or its length.
fn find_separator(s: &str) -> (r: Option<usize>)
    requires
        is_cell_path(s@),
    ensures
        r is None ==> forall|i: int| 0 <= i < s@.len() ==> s@[i] != '/',
        r matches Some(k) ==> k < s@.len() && s@[k as int] == '/' && forall|i: int|
            0 <= i < k ==> s@[i] != '/',
{
    broadcast use vstd::string::is_ascii_spec_bytes;

    proof {
        lemma_path_is_ascii(s@);
        assert(vstd::string::is_ascii(s));
    }
    let b = s.as_bytes();
    let n = b.len();
    assert(b@ == s.spec_bytes());
    assert(s.spec_bytes() =~= Seq::new(s@.len(), |k: int| s@[k] as u8));
    assert forall|k: int| 0 <= k < s@.len() implies (#[trigger] b@[k]) as char == s@[k] by {
        assert('\0' <= s@[k] <= '\u{7f}');
    }
    let mut i: usize = 0;
    while i < n
        invariant
            n == b@.len() == s@.len(),
            forall|k: int| 0 <= k < s@.len() ==> (#[trigger] b@[k]) as char == s@[k],
            i <= n,
            forall|k: int| 0 <= k < i ==> s@[k] != '/',
            b@ == s.spec_bytes(),
        decreases n - i,
    {
        if b[i] == 47u8 {
            return Some(i);
        }
        i = i + 1;
    }
    None
}


/// The name of one cell: `[a-z0-9][a-z0-9-]*`, compared byte for byte.
#[derive(Debug, Clone)]
pub struct CellName {
    name: String,
}

impl View for CellName {
    type V = Seq<char>;

    closed spec fn view(&self) -> Seq<char> {
        self.name@
    }
}

impl CellName {
    /// Accepts `name` when it is a cell name; else the error names `field`.
    pub fn validate(name: String, field: Field) -> (r: Result<CellName, ValidationError>)
        ensures
            r is Ok <==> is_cell_name(name@),
            r matches Ok(n) ==> n@ == name@,
            r matches Err(e) ==> e == (if name@.len() == 0 {
                ValidationError::Required { field }
            } else {
                ValidationError::Invalid { field }
            }),
    {
        if name.as_str().is_empty() {
            return Err(ValidationError::Required { field });
        }
        if !scan_name(name.as_str()) {
            return Err(ValidationError::Invalid { field });
        }
        Ok(CellName { name })
    }

    pub fn as_str(&self) -> (r: &str)
        ensures
            r@ == self@,
    {
        self.name.as_str()
    }

    pub fn into_inner(self) -> (r: String)
        ensures
            r@ == self@,
    {
        self.name
    }

    /// A copy whose view is the same name.
    pub fn copy(&self) -> (r: CellName)
        ensures
            r@ == self@,
    {
        CellName { name: self.name.clone() }
    }
}

impl PartialEq for CellName {
    fn eq(&self, other: &CellName) -> (r: bool) {
        self.name == other.name
    }
}

impl vstd::std_specs::cmp::PartialEqSpecImpl for CellName {
    open spec fn obeys_eq_spec() -> bool {
        true
    }

    open spec fn eq_spec(&self, other: &CellName) -> bool {
        self@ == other@
    }
}

impl Eq for CellName {

}

/// `head` and `tail` are what splitting `path` at its first separator gives:
/// the whole path and nothing when it has a single segment.
pub open spec fn splits_into(path: Seq<char>, head: Seq<char>, tail: Seq<char>) -> bool {
    if tail.len() == 0 {
        head == path
    } else {
        path == head + sep() + tail
    }
}

/// A `/`-separated sequence of cell names; the empty path addresses the
/// receiving agent itself.
#[derive(Debug, Clone)]
pub struct CellNamePath {
    path: String,
}

impl View for CellNamePath {
    type V = Seq<char>;

    closed spec fn view(&self) -> Seq<char> {
        self.path@
    }
}

impl CellNamePath {
    pub open spec fn wf(&self) -> bool {
        is_cell_path(self@)
    }

    /// Accepts `path` when it is a cell path (possibly empty); else the error
    /// names `field`.
    pub fn validate(path: String, field: Field) -> (r: Result<CellNamePath, ValidationError>)
        ensures
            r is Ok <==> is_cell_path(path@),
            r matches Ok(p) ==> p@ == path@ && p.wf(),
            r matches Err(e) ==> e == (ValidationError::Invalid { field }),
    {
        if scan_path(path.as_str()) {
            Ok(CellNamePath { path })
        } else {
            Err(ValidationError::Invalid { field })
        }
    }

    /// The path that holds the single name `name`.
    pub fn from_name(name: CellName) -> (r: CellNamePath)
        ensures
            r@ == name@,
    {
        CellNamePath { path: name.into_inner() }
    }

    pub fn is_empty(&self) -> (r: bool)
        ensures
            r == (self@.len() == 0),
    {
        self.path.as_str().is_empty()
    }

    pub fn as_str(&self) -> (r: &str)
        ensures
            r@ == self@,
    {
        self.path.as_str()
    }

    pub fn into_string(self) -> (r: String)
        ensures
            r@ == self@,
    {
        self.path
    }

    /// Splits off the first segment: `None` for the empty path, else the head
    /// and the rest (empty for a single segment).
    pub fn into_child(self) -> (r: Option<(CellName, CellNamePath)>)
        requires
            self.wf(),
        ensures
            r is None <==> self@.len() == 0,
            r matches Some((h, t)) ==> is_cell_name(h@) && t.wf() && splits_into(self@, h@, t@),
    {
        let s = self.path.as_str();
        if s.is_empty() {
            return None;
        }
        proof {
            lemma_path_is_ascii(s@);
        }
        match find_separator(s) {
            None => {
                proof {
                    assert forall|i: int| 1 <= i < s@.len() implies #[trigger] is_name_char(s@[i]) by {
                        assert(path_char_ok(s@, i));
                    }
                }
                let head = ascii_substring(s, 0, ascii_len(s));
                assert(head@ =~= s@);
                Some((CellName { name: head }, CellNamePath { path: String::new() }))
            },
            Some(k) => {
                let n = ascii_len(s);
                let head = ascii_substring(s, 0, k);
                let tail = ascii_substring(s, k + 1, n);
                proof {
                    assert(path_char_ok(s@, k as int));
                    assert forall|i: int| 1 <= i < head@.len() implies #[trigger] is_name_char(
                        head@[i],
                    ) by {
                        assert(path_char_ok(s@, i));
                    }
                    assert forall|j: int| 0 <= j < tail@.len() implies #[trigger] path_char_ok(
                        tail@,
                        j,
                    ) by {
                        assert(path_char_ok(s@, k + 1 + j));
                    }
                    assert(s@ =~= head@ + sep() + tail@);
                }
                Some((CellName { name: head }, CellNamePath { path: tail }))
            },
        }
    }
}


proof fn lemma_name_has_no_separator(s: Seq<char>, i: int)
    requires
        is_cell_name(s),
        0 <= i < s.len(),
    ensures
        s[i] != '/',
{
    if i >= 1 {
        assert(is_name_char(s[i]));
    }
}

/// Joining one or more cell names gives a non-empty cell path.
pub proof fn lemma_join_is_path(segs: Seq<Seq<char>>)
    requires
        segs.len() >= 1,
        forall|i: int| 0 <= i < segs.len() ==> is_cell_name(#[trigger] segs[i]),
    ensures
        is_cell_path(join(segs)),
        join(segs).len() >= segs[0].len() > 0,
    decreases segs.len(),
{
    if segs.len() == 1 {
        let s = segs[0];
        assert(is_cell_path(s)) by {
            assert forall|j: int| 0 <= j < s.len() implies #[trigger] path_char_ok(s, j) by {
                if j >= 1 {
                    assert(is_name_char(s[j]));
                }
            }
        }
    } else {
        let rest = segs.drop_first();
        assert forall|i: int| 0 <= i < rest.len() implies is_cell_name(#[trigger] rest[i]) by {
            assert(rest[i] == segs[i + 1]);
        }
        lemma_join_is_path(rest);
        let h = segs[0];
        let t = join(rest);
        let p = join(segs);
        assert(p == h + sep() + t);
        assert forall|j: int| 0 <= j < p.len() implies #[trigger] path_char_ok(p, j) by {
            if j < h.len() {
                if j >= 1 {
                    assert(is_name_char(h[j]));
                }
                assert(p[j] == h[j]);
                if j + 1 < h.len() {
                    assert(p[j + 1] == h[j + 1]);
                    assert(is_name_char(h[j + 1]));
                }
            } else if j == h.len() {
                assert(p[j + 1] == t[0]);
            } else {
                let k = j - h.len() - 1;
                assert(p[j] == t[k]);
                assert(path_char_ok(t, k));
                if k + 1 < t.len() {
                    assert(p[j + 1] == t[k + 1]);
                }
            }
        }
    }
}

/// One routing hop on a path made of the names `segs`: the only way to split
/// it at its first separator gives the first name as the hop's target and the
/// remaining names, joined, as the path handed on. A path of a single name is
/// not split any further: the hop that receives it acts locally.
pub proof fn lemma_route_hop(segs: Seq<Seq<char>>, head: Seq<char>, tail: Seq<char>)
    requires
        segs.len() >= 1,
        forall|i: int| 0 <= i < segs.len() ==> is_cell_name(#[trigger] segs[i]),
        is_cell_name(head),
        splits_into(join(segs), head, tail),
    ensures
        head == segs[0],
        tail == join(segs.drop_first()),
        tail.len() == 0 <==> segs.len() == 1,
{
    let p = join(segs);
    let s0 = segs[0];
    if segs.len() == 1 {
        if tail.len() > 0 {
            assert(p[head.len() as int] == '/');
            lemma_name_has_no_separator(s0, head.len() as int);
        }
        assert(segs.drop_first().len() == 0);
    } else {
        let rest = segs.drop_first();
        assert forall|i: int| 0 <= i < rest.len() implies is_cell_name(#[trigger] rest[i]) by {
            assert(rest[i] == segs[i + 1]);
        }
        lemma_join_is_path(rest);
        let r = join(rest);
        assert(p == s0 + sep() + r);
        if tail.len() == 0 {
            assert(p[s0.len() as int] == '/');
            lemma_name_has_no_separator(head, s0.len() as int);
        } else {
            assert(p == head + sep() + tail);
            if head.len() < s0.len() {
                assert(p[head.len() as int] == '/');
                lemma_name_has_no_separator(s0, head.len() as int);
            } else if head.len() > s0.len() {
                assert(p[s0.len() as int] == '/');
                lemma_name_has_no_separator(head, s0.len() as int);
            }
            assert(head =~= p.subrange(0, head.len() as int));
            assert(s0 =~= p.subrange(0, s0.len() as int));
            assert(tail =~= p.subrange(head.len() as int + 1, p.len() as int));
            assert(r =~= p.subrange(s0.len() as int + 1, p.len() as int));
        }
    }
}

} // verus!
