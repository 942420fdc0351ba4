use vstd::prelude::*;

verus! {

/// A reference to an element: an optional document and a fragment identifier within it.
#[derive(Debug, Clone, PartialEq)]
pub struct Fragment {
    uri: Option<String>,
    fragment: String,
}

/// What a fragment reference is.
pub struct FragmentView {
    pub uri: Option<Seq<char>>,
    pub fragment: Seq<char>,
}

impl View for Fragment {
    type V = FragmentView;

    closed spec fn view(&self) -> FragmentView {
        FragmentView {
            uri: match self.uri {
                Some(u) => Some(u@),
                None => None,
            },
            fragment: self.fragment@,
        }
    }
}

impl Fragment {
    pub fn new(uri: Option<String>, fragment: String) -> (r: Fragment)
        ensures
            r@.uri == match uri {
                Some(u) => Some(u@),
                None => None::<Seq<char>>,
            },
            r@.fragment == fragment@,
    {
        Fragment { uri, fragment }
    }

    pub fn uri(&self) -> (r: Option<&str>)
        ensures
            match self@.uri {
                Some(u) => r matches Some(s) && s@ == u,
                None => r.is_none(),
            },
    {
        match &self.uri {
            Some(u) => Some(u.as_str()),
            None => None,
        }
    }

    pub fn fragment(&self) -> (r: &str)
        ensures
            r@ == self@.fragment,
    {
        self.fragment.as_str()
    }
}

/// A value that is either `none` or a reference to an element, as style properties take it.
#[derive(Debug, Clone, PartialEq)]
pub enum IRI {
    Empty,
    Resource(Fragment),
}

/// What an `IRI` is.
pub enum IriView {
    Empty,
    Resource(FragmentView),
}

impl View for IRI {
    type V = IriView;

    open spec fn view(&self) -> IriView {
        match self {
            IRI::Empty => IriView::Empty,
            IRI::Resource(f) => IriView::Resource(f@),
        }
    }
}

/// Why a value could not be read as an `IRI`.
#[derive(Debug, Clone, Copy, PartialEq, Eq, Structural)]
pub enum IriError {
    /// Neither `none` nor a well-formed `url(...)`.
    Syntax,
    /// A `url(...)` without a fragment identifier.
    MissingFragment,
}

pub open spec fn is_space(c: char) -> bool {
    c == ' ' || c == '\t' || c == '\n' || c == '\r' || c == '\x0C'
}

/// `s` without its leading white space.
pub open spec fn trim_start(s: Seq<char>) -> Seq<char>
    decreases s.len(),
{
    if s.len() > 0 && is_space(s[0]) {
        trim_start(s.drop_first())
    } else {
        s
    }
}

/// `s` without its trailing white space.
pub open spec fn trim_end(s: Seq<char>) -> Seq<char>
    decreases s.len(),
{
    if s.len() > 0 && is_space(s.last()) {
        trim_end(s.drop_last())
    } else {
        s
    }
}

pub open spec fn trim(s: Seq<char>) -> Seq<char> {
    trim_end(trim_start(s))
}

/// `c` is the lower-case letter `l`, or its upper-case form.
pub open spec fn char_eq_ignore_case(c: char, l: char) -> bool {
    c == l || ('A' <= c <= 'Z' && c as u32 + 32 == l as u32)
}

/// `s` equals the lower-case `lit` when ASCII letters are compared without case.
pub open spec fn eq_ignore_case(s: Seq<char>, lit: Seq<char>) -> bool {
    s.len() == lit.len() && forall|i: int| 0 <= i < s.len() ==> char_eq_ignore_case(#[trigger] s[i], lit[i])
}

/// A character that may stand in an unquoted `url(...)`.
pub open spec fn is_url_char(c: char) -> bool {
    !is_space(c) && c != '(' && c != ')' && c != '"' && c != '\'' && c != '\\'
}

pub open spec fn is_quote(c: char) -> bool {
    c == '"' || c == '\''
}

/// A character that may stand in a string quoted by `q`: escapes and new lines are not read.
pub open spec fn is_string_char(c: char, q: char) -> bool {
    c != q && c != '\\' && c != '\n' && c != '\r' && c != '\x0C'
}

/// What stands between `url(` and the closing parenthesis, which may be missing.
pub open spec fn url_body(t: Seq<char>) -> Seq<char> {
    let rest = t.subrange(4, t.len() as int);
    if rest.len() > 0 && rest.last() == ')' {
        rest.drop_last()
    } else {
        rest
    }
}

/// The index of the last `#` in `u`, or -1.
pub open spec fn last_hash(u: Seq<char>) -> int
    decreases u.len(),
{
    if u.len() == 0 {
        -1
    } else if u.last() == '#' {
        u.len() - 1
    } else {
        last_hash(u.drop_last())
    }
}

/// The reference a URL makes: what precedes its last `#` (nothing when that is empty) and
/// what follows it; an error without a `#`.
pub open spec fn href_fragment(u: Seq<char>) -> Result<IriView, IriError> {
    let p = last_hash(u);
    if p < 0 {
        Err(IriError::MissingFragment)
    } else {
        Ok(
            IriView::Resource(
                FragmentView {
                    uri: if p == 0 {
                        None
                    } else {
                        Some(u.subrange(0, p))
                    },
                    fragment: u.subrange(p + 1, u.len() as int),
                },
            ),
        )
    }
}

/// The value of `s`: `none` in any case, or `url(...)` around a URL with a fragment
/// identifier, unquoted or in single or double quotes; white space may surround the value and
/// the URL, and the closing parenthesis may be missing at the end. Escapes and comments are
/// not read: a backslash is refused.
pub open spec fn spec_parse_iri(s: Seq<char>) -> Result<IriView, IriError> {
    let t = trim(s);
    if eq_ignore_case(t, seq!['n', 'o', 'n', 'e']) {
        Ok(IriView::Empty)
    } else if t.len() >= 4 && eq_ignore_case(t.subrange(0, 4), seq!['u', 'r', 'l', '(']) {
        let u = trim(url_body(t));
        if u.len() >= 2 && is_quote(u[0]) && u.last() == u[0] {
            let inner = u.subrange(1, u.len() - 1);
            if forall|i: int| 0 <= i < inner.len() ==> is_string_char(#[trigger] inner[i], u[0]) {
                href_fragment(inner)
            } else {
                Err(IriError::Syntax)
            }
        } else if forall|i: int| 0 <= i < u.len() ==> is_url_char(#[trigger] u[i]) {
            href_fragment(u)
        } else {
            Err(IriError::Syntax)
        }
    } else {
        Err(IriError::Syntax)
    }
}

impl IRI {
    /// The fragment reference, if this is one.
    pub fn get(&self) -> (r: Option<&Fragment>)
        ensures
            match self {
                IRI::Empty => r.is_none(),
                IRI::Resource(f) => r == Some(f),
            },
    {
        match self {
            IRI::Empty => None,
            IRI::Resource(f) => Some(f),
        }
    }

    /// Reads an `IRI` from `s`.
    pub fn parse_str_to_parse_error(s: &str) -> (r: Result<IRI, IriError>)
        ensures
            match spec_parse_iri(s@) {
                Ok(v) => r matches Ok(iri) && iri@ == v,
                Err(e) => r == Err::<IRI, IriError>(e),
            },
    {
        let n = s.unicode_len();
        let (lo, hi) = trim_range(s, 0, n);
        proof {
            assert(s@.subrange(0, n as int) =~= s@);
        }
        let ghost t = s@.subrange(lo as int, hi as int);
        proof {
            reveal_strlit("none");
            reveal_strlit("url(");
            assert("none"@ =~= seq!['n', 'o', 'n', 'e']);
            assert("url("@ =~= seq!['u', 'r', 'l', '(']);
        }
        if matches_ignore_case(s, lo, hi, "none") {
            return Ok(IRI::Empty);
        }
        if hi - lo < 4 {
            return Err(IriError::Syntax);
        }
        assert(t.subrange(0, 4) =~= s@.subrange(lo as int, lo + 4));
        if !matches_ignore_case(s, lo, lo + 4, "url(") {
            return Err(IriError::Syntax);
        }
        let mut end = hi;
        if end > lo + 4 && s.get_char(end - 1) == ')' {
            end = end - 1;
        }
        proof {
            let rest = t.subrange(4, t.len() as int);
            assert(rest =~= s@.subrange(lo + 4, hi as int));
            if rest.len() > 0 && rest.last() == ')' {
                assert(rest.drop_last() =~= s@.subrange(lo + 4, end as int));
            }
            assert(url_body(t) =~= s@.subrange(lo + 4, end as int));
        }
        let (ulo, uhi) = trim_range(s, lo + 4, end);
        let ghost u = s@.subrange(ulo as int, uhi as int);
        if uhi - ulo >= 2 && quote(s.get_char(ulo)) && s.get_char(uhi - 1) == s.get_char(ulo) {
            let q = s.get_char(ulo);
            proof {
                assert(u[0] == q && u.last() == q);
            }
            if !all_chars(s, ulo + 1, uhi - 1, true, q) {
                proof {
                    assert(s@.subrange(ulo + 1, uhi - 1) =~= u.subrange(1, u.len() - 1));
                }
                return Err(IriError::Syntax);
            }
            proof {
                assert(s@.subrange(ulo + 1, uhi - 1) =~= u.subrange(1, u.len() - 1));
            }
            split_fragment(s, ulo + 1, uhi - 1)
        } else {
            if !all_chars(s, ulo, uhi, false, ' ') {
                return Err(IriError::Syntax);
            }
            split_fragment(s, ulo, uhi)
        }
    }
}

impl Default for IRI {
    fn default() -> (r: IRI)
        ensures
            r == IRI::Empty,
    {
        IRI::Empty
    }
}

fn quote(c: char) -> (r: bool)
    ensures
        r == is_quote(c),
{
    c == '"' || c == '\''
}

fn string_char(c: char, q: char) -> (r: bool)
    ensures
        r == is_string_char(c, q),
{
    c != q && c != '\\' && c != '\n' && c != '\r' && c != '\x0C'
}

/// Whether every character of `s[lo..hi]` may stand in a string quoted by `q` (when `quoted`)
/// or in an unquoted URL.
fn all_chars(s: &str, lo: usize, hi: usize, quoted: bool, q: char) -> (r: bool)
    requires
        lo <= hi <= s@.len(),
    ensures
        r == forall|k: int|
            0 <= k < hi - lo ==> if quoted {
                is_string_char(#[trigger] s@.subrange(lo as int, hi as int)[k], q)
            } else {
                is_url_char(s@.subrange(lo as int, hi as int)[k])
            },
{
    let ghost v = s@.subrange(lo as int, hi as int);
    let mut i = lo;
    while i < hi
        invariant
            lo <= i <= hi <= s@.len(),
            v == s@.subrange(lo as int, hi as int),
            forall|k: int|
                0 <= k < i - lo ==> if quoted {
                    is_string_char(#[trigger] v[k], q)
                } else {
                    is_url_char(v[k])
                },
        decreases hi - i,
    {
        let c = s.get_char(i);
        assert(v[i - lo] == c);
        let ok = if quoted {
            string_char(c, q)
        } else {
            url_char(c)
        };
        if !ok {
            return false;
        }
        i = i + 1;
    }
    true
}

/// Splits the URL `s[lo..hi]` at its last `#`.
fn split_fragment(s: &str, lo: usize, hi: usize) -> (r: Result<IRI, IriError>)
    requires
        lo <= hi <= s@.len(),
    ensures
        match href_fragment(s@.subrange(lo as int, hi as int)) {
            Ok(v) => r matches Ok(iri) && iri@ == v,
            Err(e) => r == Err::<IRI, IriError>(e),
        },
{
    let ghost u = s@.subrange(lo as int, hi as int);
    let mut p = hi;
    assert(u.subrange(0, p - lo) =~= u);
    while p > lo
        invariant
            lo <= p <= hi <= s@.len(),
            u == s@.subrange(lo as int, hi as int),
            last_hash(u) == last_hash(u.subrange(0, p - lo)),
        decreases p,
    {
        assert(u.subrange(0, p - lo).drop_last() =~= u.subrange(0, p - lo - 1));
        if s.get_char(p - 1) == '#' {
            let uri = if p - 1 == lo {
                None
            } else {
                Some(s.substring_char(lo, p - 1).to_owned())
            };
            let fragment = s.substring_char(p, hi).to_owned();
            proof {
                assert(s@.subrange(lo as int, p - 1) =~= u.subrange(0, p - 1 - lo));
                assert(s@.subrange(p as int, hi as int) =~= u.subrange(p - lo, u.len() as int));
            }
            return Ok(IRI::Resource(Fragment::new(uri, fragment)));
        }
        p = p - 1;
    }
    proof {
        assert(u.subrange(0, 0) =~= Seq::<char>::empty());
    }
    Err(IriError::MissingFragment)
}

fn space(c: char) -> (r: bool)
    ensures
        r == is_space(c),
{
    c == ' ' || c == '\t' || c == '\n' || c == '\r' || c == '\x0C'
}

fn url_char(c: char) -> (r: bool)
    ensures
        r == is_url_char(c),
{
    !space(c) && c != '(' && c != ')' && c != '"' && c != '\'' && c != '\\'
}

fn eq_ignore_case_char(c: char, l: char) -> (r: bool)
    ensures
        r == char_eq_ignore_case(c, l),
{
    c == l || ('A' <= c && c <= 'Z' && c as u32 + 32 == l as u32)
}

/// Whether `s[lo..hi]` equals the lower-case `lit` when ASCII letters are compared without
/// case.
fn matches_ignore_case(s: &str, lo: usize, hi: usize, lit: &str) -> (r: bool)
    requires
        lo <= hi <= s@.len(),
    ensures
        r == eq_ignore_case(s@.subrange(lo as int, hi as int), lit@),
{
    let n = lit.unicode_len();
    if hi - lo != n {
        return false;
    }
    let mut i: usize = 0;
    while i < n
        invariant
            lo <= hi <= s@.len(),
            hi - lo == n,
            n == lit@.len(),
            i <= n,
            forall|k: int| 0 <= k < i ==> char_eq_ignore_case(#[trigger] s@[lo + k], lit@[k]),
        decreases n - i,
    {
        if !eq_ignore_case_char(s.get_char(lo + i), lit.get_char(i)) {
            assert(s@.subrange(lo as int, hi as int)[i as int] == s@[lo + i]);
            return false;
        }
        i = i + 1;
    }
    assert forall|k: int| 0 <= k < hi - lo implies char_eq_ignore_case(
        #[trigger] s@.subrange(lo as int, hi as int)[k],
        lit@[k],
    ) by {
        assert(s@.subrange(lo as int, hi as int)[k] == s@[lo + k]);
    }
    true
}

/// The part of `s[lo..hi]` left without surrounding white space, as a range of `s`.
fn trim_range(s: &str, lo: usize, hi: usize) -> (r: (usize, usize))
    requires
        lo <= hi <= s@.len(),
    ensures
        lo <= r.0 <= r.1 <= hi,
        s@.subrange(r.0 as int, r.1 as int) == trim(s@.subrange(lo as int, hi as int)),
{
    let mut a = lo;
    while a < hi && space(s.get_char(a))
        invariant
            lo <= a <= hi <= s@.len(),
            trim_start(s@.subrange(lo as int, hi as int)) == trim_start(
                s@.subrange(a as int, hi as int),
            ),
        decreases hi - a,
    {
        assert(s@.subrange(a as int, hi as int).drop_first() =~= s@.subrange(a + 1, hi as int));
        a = a + 1;
    }
    let mut b = hi;
    while b > a && space(s.get_char(b - 1))
        invariant
            lo <= a <= b <= hi <= s@.len(),
            trim_end(s@.subrange(a as int, hi as int)) == trim_end(s@.subrange(a as int, b as int)),
        decreases b,
    {
        assert(s@.subrange(a as int, b as int).drop_last() =~= s@.subrange(a as int, b - 1));
        b = b - 1;
    }
    (a, b)
}

} // verus!
