//! The parts of an outgoing request and of a response that the client's
//! decisions read and write: method, path, headers and body.
use vstd::prelude::*;
use vstd::string::StringSliceAdditionalSpecFns;

verus! {

/// The method of a request.
#[derive(Debug, Clone, PartialEq, Eq)]
pub enum Method {
    Get,
    Head,
    Options,
    Trace,
    Put,
    Delete,
    Post,
    Patch,
    Connect,
    /// A method beyond the standard ones, by its name.
    Extension(String),
}

impl Method {
    /// The method changes state on the server: `POST`, `PUT`, `PATCH` or
    /// `DELETE`.
    pub open spec fn is_mutating(self) -> bool {
        self is Post || self is Put || self is Patch || self is Delete
    }

    /// Repeating the request has the effect of sending it once, whatever its
    /// headers: `GET`, `HEAD`, `OPTIONS`, `TRACE`, `PUT` or `DELETE`.
    pub open spec fn is_idempotent(self) -> bool {
        self is Get || self is Head || self is Options || self is Trace || self is Put
            || self is Delete
    }

    /// Repeating the request has the effect of sending it once only if the
    /// server is told, by an idempotency key, that it is a repetition: `POST`
    /// or `PATCH`.
    pub open spec fn needs_idempotency_key(self) -> bool {
        self is Post || self is Patch
    }
}

/// The body of an outgoing request.
///
/// A body may hold secrets, so it cannot be printed.
#[derive(Clone, PartialEq, Eq)]
pub enum Body {
    /// The request has no body.
    Empty,
    /// The whole body, held in memory.
    Bytes(Vec<u8>),
    /// A body that is produced while the request is sent, so that its bytes
    /// are not known beforehand.
    Streaming,
}

/// One header line.
///
/// The value of a line may be sensitive, so a line cannot be printed.
#[derive(Clone, PartialEq, Eq)]
pub struct Header {
    /// The name; upper and lower case ASCII letters are not told apart.
    pub name: String,
    /// The value, as the bytes that go on the wire.
    pub value: Vec<u8>,
    /// The value must never be rendered in logs or traces.
    pub sensitive: bool,
}

/// A header line as plain values.
pub struct HeaderView {
    /// The bytes of the name.
    pub name: Seq<u8>,
    /// The bytes of the value.
    pub value: Seq<u8>,
    /// The value must never be rendered in logs or traces.
    pub sensitive: bool,
}

impl View for Header {
    type V = HeaderView;

    open spec fn view(&self) -> HeaderView {
        HeaderView {
            name: vstd::utf8::encode_utf8(self.name@),
            value: self.value@,
            sensitive: self.sensitive,
        }
    }
}

/// The lower case form of an ASCII letter; any other byte as it is.
pub open spec fn lower(b: u8) -> u8 {
    if 0x41 <= b <= 0x5a {
        (b + 0x20) as u8
    } else {
        b
    }
}

/// Two header names are the same: equal up to the case of ASCII letters.
pub open spec fn same_name(a: Seq<u8>, b: Seq<u8>) -> bool {
    a.len() == b.len() && forall|i: int| 0 <= i < a.len() ==> lower(#[trigger] a[i]) == lower(b[i])
}

/// No line of `lines` carries the header `name`.
pub open spec fn absent(lines: Seq<HeaderView>, name: Seq<u8>) -> bool {
    forall|i: int| 0 <= i < lines.len() ==> !same_name((#[trigger] lines[i]).name, name)
}

/// Line `i` is the first of `lines` that carries the header `name`.
pub open spec fn is_first(lines: Seq<HeaderView>, name: Seq<u8>, i: int) -> bool {
    &&& 0 <= i < lines.len()
    &&& same_name(lines[i].name, name)
    &&& absent(lines.take(i), name)
}

/// The first line of `lines` that carries the header `name`, if any.
pub open spec fn first_line(lines: Seq<HeaderView>, name: Seq<u8>) -> Option<HeaderView> {
    if absent(lines, name) {
        None
    } else {
        Some(lines[choose|i: int| is_first(lines, name, i)])
    }
}

/// The value of the header `name`: that of the first line which carries it.
pub open spec fn lookup(lines: Seq<HeaderView>, name: Seq<u8>) -> Option<Seq<u8>> {
    match first_line(lines, name) {
        Some(line) => Some(line.value),
        None => None,
    }
}

/// The lines of `lines` that do not carry the header `name`, in their order.
pub open spec fn without(lines: Seq<HeaderView>, name: Seq<u8>) -> Seq<HeaderView>
    decreases lines.len(),
{
    if lines.len() == 0 {
        lines
    } else if same_name(lines.last().name, name) {
        without(lines.drop_last(), name)
    } else {
        without(lines.drop_last(), name).push(lines.last())
    }
}

/// The lines after the header of `line` has been set: every earlier line of
/// that name is gone, and `line` stands last.
pub open spec fn with_line(lines: Seq<HeaderView>, line: HeaderView) -> Seq<HeaderView> {
    without(lines, line.name).push(line)
}

/// A header value can go on the wire: it holds no control character but
/// the horizontal tab.
pub open spec fn is_valid_value(value: Seq<u8>) -> bool {
    forall|i: int| 0 <= i < value.len() ==> is_value_byte(#[trigger] value[i])
}

/// A byte that may occur in a header value.
pub open spec fn is_value_byte(b: u8) -> bool {
    (b >= 32 && b != 127) || b == 9
}

/// Sameness of names is reflexive, symmetric and transitive.
pub proof fn lemma_same_name_equivalence(a: Seq<u8>, b: Seq<u8>, c: Seq<u8>)
    ensures
        same_name(a, a),
        same_name(a, b) ==> same_name(b, a),
        same_name(a, b) && same_name(b, c) ==> same_name(a, c),
{
}

/// A header is carried by some line exactly if it has a first line, and that
/// line is unique.
pub proof fn lemma_first_exists(lines: Seq<HeaderView>, name: Seq<u8>)
    ensures
        !absent(lines, name) ==> exists|i: int| is_first(lines, name, i),
        forall|i: int, j: int| is_first(lines, name, i) && is_first(lines, name, j) ==> i == j,
        forall|i: int| is_first(lines, name, i) ==> !absent(lines, name),
    decreases lines.len(),
{
    if !absent(lines, name) {
        let k = choose|k: int| 0 <= k < lines.len() && same_name(lines[k].name, name);
        let front = lines.take(k);
        if absent(front, name) {
            assert(is_first(lines, name, k));
        } else {
            lemma_first_exists(front, name);
            let i = choose|i: int| is_first(front, name, i);
            assert(front.take(i) =~= lines.take(i));
            assert(is_first(lines, name, i));
        }
    }
    assert forall|i: int, j: int| is_first(lines, name, i) && is_first(lines, name, j) implies i
        == j by {
        if i < j {
            assert(lines.take(j)[i] == lines[i]);
        } else if j < i {
            assert(lines.take(i)[j] == lines[j]);
        }
    }
}

/// The first line of a header, once its index is known.
pub proof fn lemma_first_line_at(lines: Seq<HeaderView>, name: Seq<u8>, i: int)
    requires
        is_first(lines, name, i),
    ensures
        first_line(lines, name) == Some(lines[i]),
        lookup(lines, name) == Some(lines[i].value),
{
    lemma_first_exists(lines, name);
}

/// Removing a header leaves no line of that name, keeps the lines of every
/// other name, and never makes the list longer.
pub proof fn lemma_without(lines: Seq<HeaderView>, name: Seq<u8>, other: Seq<u8>)
    ensures
        absent(without(lines, name), name),
        without(lines, name).len() <= lines.len(),
        !same_name(name, other) ==> first_line(without(lines, name), other) == first_line(
            lines,
            other,
        ),
        absent(lines, name) ==> without(lines, name) == lines,
    decreases lines.len(),
{
    if lines.len() == 0 {
    } else {
        let front = lines.drop_last();
        let last = lines.last();
        lemma_without(front, name, other);
        let kept = without(front, name);
        if !same_name(name, other) {
            lemma_first_line_push(front, last, other);
            assert(front.push(last) =~= lines);
            if same_name(last.name, name) {
                lemma_same_name_equivalence(last.name, name, other);
                lemma_same_name_equivalence(name, last.name, other);
            } else {
                lemma_first_line_push(kept, last, other);
            }
        }
    }
}

/// Appending a line changes the first line of a header only where the header
/// was absent and the new line carries it.
pub proof fn lemma_first_line_push(lines: Seq<HeaderView>, line: HeaderView, name: Seq<u8>)
    ensures
        first_line(lines.push(line), name) == if !absent(lines, name) {
            first_line(lines, name)
        } else if same_name(line.name, name) {
            Some(line)
        } else {
            None
        },
{
    let longer = lines.push(line);
    if !absent(lines, name) {
        lemma_first_exists(lines, name);
        let i = choose|i: int| is_first(lines, name, i);
        assert(longer.take(i) =~= lines.take(i));
        lemma_first_line_at(longer, name, i);
    } else if same_name(line.name, name) {
        lemma_first_line_at(longer, name, lines.len() as int);
    }
}

/// After a header has been set, looking it up gives the value that was set,
/// and every header of another name reads as before.
pub proof fn lemma_set_then_get(lines: Seq<HeaderView>, line: HeaderView, name: Seq<u8>)
    ensures
        first_line(with_line(lines, line), name) == if same_name(line.name, name) {
            Some(line)
        } else {
            first_line(lines, name)
        },
{
    lemma_first_line_push(without(lines, line.name), line, name);
    lemma_without(lines, line.name, name);
}

/// The lower case form of an ASCII letter; any other byte as it is.
pub fn lower_byte(b: u8) -> (r: u8)
    ensures
        r == lower(b),
{
    if 0x41 <= b && b <= 0x5a {
        b + 0x20
    } else {
        b
    }
}

/// Whether two header names are the same up to the case of ASCII letters.
pub fn names_match(a: &[u8], b: &[u8]) -> (r: bool)
    ensures
        r == same_name(a@, b@),
{
    if a.len() != b.len() {
        return false;
    }
    let mut i: usize = 0;
    while i < a.len()
        invariant
            a.len() == b.len(),
            0 <= i <= a.len(),
            forall|j: int| 0 <= j < i ==> lower(#[trigger] a@[j]) == lower(b@[j]),
        decreases a.len() - i,
    {
        if lower_byte(a[i]) != lower_byte(b[i]) {
            return false;
        }
        i = i + 1;
    }
    true
}

/// Adds the given bytes at the end of `out`.
pub fn append_bytes(out: &mut Vec<u8>, bytes: &[u8])
    ensures
        final(out)@ == old(out)@ + bytes@,
{
    let mut i: usize = 0;
    while i < bytes.len()
        invariant
            0 <= i <= bytes.len(),
            out@ == old(out)@ + bytes@.take(i as int),
        decreases bytes.len() - i,
    {
        out.push(bytes[i]);
        i = i + 1;
    }
}

/// A copy of the given bytes.
pub fn copy_bytes(bytes: &[u8]) -> (r: Vec<u8>)
    ensures
        r@ == bytes@,
{
    let mut out: Vec<u8> = Vec::new();
    append_bytes(&mut out, bytes);
    out
}

/// Whether `value` can go on the wire as a header value.
pub fn is_valid_header_value(value: &[u8]) -> (r: bool)
    ensures
        r == is_valid_value(value@),
{
    let mut i: usize = 0;
    while i < value.len()
        invariant
            0 <= i <= value.len(),
            forall|j: int| 0 <= j < i ==> is_value_byte(#[trigger] value@[j]),
        decreases value.len() - i,
    {
        let b = value[i];
        if !((b >= 32 && b != 127) || b == 9) {
            return false;
        }
        i = i + 1;
    }
    true
}

/// The header lines of a request or a response, in their order.
///
/// A header may occur on several lines; reading it gives the value of the
/// first, and setting it replaces them all.
#[derive(Clone, PartialEq, Eq)]
pub struct Headers {
    /// The lines, first to last.
    pub lines: Vec<Header>,
}

impl View for Headers {
    type V = Seq<HeaderView>;

    open spec fn view(&self) -> Seq<HeaderView> {
        Seq::new(self.lines@.len(), |i: int| self.lines@[i]@)
    }
}

impl Headers {
    /// No header lines.
    pub fn new() -> (r: Headers)
        ensures
            r@ == Seq::<HeaderView>::empty(),
    {
        let r = Headers { lines: Vec::new() };
        r
    }

    /// The index of the first line that carries the header `name`.
    fn position(&self, name: &str) -> (r: Option<usize>)
        ensures
            match r {
                Some(i) => is_first(self@, name.spec_bytes(), i as int),
                None => absent(self@, name.spec_bytes()),
            },
    {
        let wanted = name.as_bytes();
        let mut i: usize = 0;
        while i < self.lines.len()
            invariant
                0 <= i <= self.lines.len(),
                wanted@ == name.spec_bytes(),
                forall|j: int| 0 <= j < i ==> !same_name((#[trigger] self@[j]).name, wanted@),
            decreases self.lines.len() - i,
        {
            if names_match(self.lines[i].name.as_str().as_bytes(), wanted) {
                return Some(i);
            }
            i = i + 1;
        }
        None
    }

    /// The value of the header `name`, if the header is present.
    pub fn get(&self, name: &str) -> (r: Option<&Vec<u8>>)
        ensures
            match lookup(self@, name.spec_bytes()) {
                Some(value) => r is Some && r.unwrap()@ == value,
                None => r is None,
            },
    {
        match self.position(name) {
            Some(i) => {
                proof {
                    lemma_first_line_at(self@, name.spec_bytes(), i as int);
                }
                Some(&self.lines[i].value)
            },
            None => None,
        }
    }

    /// Whether the header `name` is present.
    pub fn contains(&self, name: &str) -> (r: bool)
        ensures
            r == !absent(self@, name.spec_bytes()),
    {
        match self.position(name) {
            Some(i) => {
                proof {
                    lemma_first_exists(self@, name.spec_bytes());
                }
                true
            },
            None => false,
        }
    }

    /// Sets the header `name` to `value`: every line that carried it is
    /// removed, and one line with the new value is added at the end.
    pub fn insert(&mut self, name: &str, value: Vec<u8>, sensitive: bool)
        ensures
            final(self)@ == with_line(
                old(self)@,
                HeaderView { name: name.spec_bytes(), value: value@, sensitive },
            ),
    {
        let wanted = name.as_bytes();
        let mut lines: Vec<Header> = Vec::new();
        core::mem::swap(&mut lines, &mut self.lines);
        let ghost before = Seq::new(lines@.len(), |i: int| lines@[i]@);
        let mut kept: Vec<Header> = Vec::new();
        for line in rest: lines
            invariant
                wanted@ == name.spec_bytes(),
                rest.seq().len() == before.len(),
                forall|i: int| 0 <= i < before.len() ==> (#[trigger] rest.seq()[i])@ == before[i],
                Seq::new(kept@.len(), |i: int| kept@[i]@) == without(
                    before.take(rest.index() as int),
                    wanted@,
                ),
        {
            let ghost seen = before.take(rest.index() as int + 1);
            assert(seen.drop_last() =~= before.take(rest.index() as int));
            if !names_match(line.name.as_str().as_bytes(), wanted) {
                kept.push(line);
            }
        }
        assert(before.take(before.len() as int) =~= before);
        let line = Header { name: name.to_owned(), value, sensitive };
        kept.push(line);
        self.lines = kept;
    }
}

/// An outgoing request, as far as the client's decisions are concerned.
#[derive(Clone, PartialEq, Eq)]
pub struct Request {
    /// The method.
    pub method: Method,
    /// The absolute path of the target, starting with `/`, without query.
    pub path: String,
    /// The parameters of the query, by name and value, in their order.
    pub query: Vec<(String, String)>,
    /// The header lines.
    pub headers: Headers,
    /// The body.
    pub body: Body,
}

impl Request {
    /// A request without query, without headers and without a body.
    pub fn new(method: Method, path: &str) -> (r: Request)
        ensures
            r.method == method,
            r.path@ == path@,
            r.query@ == Seq::<(String, String)>::empty(),
            r.headers@ == Seq::<HeaderView>::empty(),
            r.body == Body::Empty,
    {
        Request {
            method,
            path: path.to_owned(),
            query: Vec::new(),
            headers: Headers::new(),
            body: Body::Empty,
        }
    }
}

} // verus!
