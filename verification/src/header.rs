use vstd::prelude::*;
use vstd::utf8::encode_utf8;

verus! {

/// The content of a header field: its name as text and its value as bytes.
pub struct HeaderView {
    pub name: Seq<char>,
    pub value: Seq<u8>,
}

/// One header field of a request or a response.
///
/// A message holds its fields in a `Vec`, in the order in which they travel;
/// a name may occur several times.
#[derive(Debug, PartialEq, Eq)]
pub struct Header {
    pub name: String,
    pub value: Vec<u8>,
}

impl View for Header {
    type V = HeaderView;

    open spec fn view(&self) -> HeaderView {
        HeaderView { name: self.name@, value: self.value@ }
    }
}

impl DeepView for Header {
    type V = HeaderView;

    open spec fn deep_view(&self) -> HeaderView {
        self@
    }
}

/// An ASCII capital letter as its small letter, any other byte as itself.
pub open spec fn lower(byte: u8) -> u8 {
    if 0x41 <= byte <= 0x5a {
        (byte + 0x20) as u8
    } else {
        byte
    }
}

/// Two byte strings are equal but for the case of their ASCII letters.
pub open spec fn same_ignoring_case(a: Seq<u8>, b: Seq<u8>) -> bool {
    &&& a.len() == b.len()
    &&& forall|i: int| 0 <= i < a.len() ==> lower(#[trigger] a[i]) == lower(b[i])
}

/// Two header names denote the same field: names are compared byte by byte,
/// ignoring the case of ASCII letters.
pub open spec fn names_match(a: Seq<char>, b: Seq<char>) -> bool {
    same_ignoring_case(encode_utf8(a), encode_utf8(b))
}

/// The fields of `headers` that are called `name`, in their order.
pub open spec fn named(headers: Seq<HeaderView>, name: Seq<char>) -> Seq<HeaderView> {
    headers.filter(|h: HeaderView| names_match(h.name, name))
}

/// The fields of `headers` that are not called `name`, in their order.
pub open spec fn not_named(headers: Seq<HeaderView>, name: Seq<char>) -> Seq<HeaderView> {
    headers.filter(|h: HeaderView| !names_match(h.name, name))
}

/// The fields of `headers` whose names `ignored` does not pick, in their
/// order.
pub open spec fn but_for(headers: Seq<HeaderView>, ignored: spec_fn(Seq<char>) -> bool) -> Seq<
    HeaderView,
> {
    headers.filter(|h: HeaderView| !ignored(h.name))
}

/// The values that `headers` gives for `name`, in their order.
pub open spec fn values_of(headers: Seq<HeaderView>, name: Seq<char>) -> Seq<Seq<u8>> {
    named(headers, name).map_values(|h: HeaderView| h.value)
}

fn to_lower(byte: u8) -> (folded: u8)
    ensures
        folded == lower(byte),
{
    if 0x41 <= byte && byte <= 0x5a {
        byte + 0x20
    } else {
        byte
    }
}

/// Whether `name` and `other` denote the same header field.
pub fn name_is(name: &str, other: &str) -> (same: bool)
    ensures
        same == names_match(name@, other@),
{
    let a = name.as_bytes();
    let b = other.as_bytes();
    if a.len() != b.len() {
        return false;
    }
    let mut i: usize = 0;
    while i < a.len()
        invariant
            a@ == encode_utf8(name@),
            b@ == encode_utf8(other@),
            a@.len() == b@.len(),
            i <= a@.len(),
            forall|j: int| 0 <= j < i ==> lower(#[trigger] a@[j]) == lower(b@[j]),
        decreases a@.len() - i,
    {
        if to_lower(a[i]) != to_lower(b[i]) {
            return false;
        }
        i += 1;
    }
    true
}

impl Header {
    /// A field called `name` that carries `value`.
    pub fn new(name: &str, value: &[u8]) -> (header: Header)
        ensures
            header@ == (HeaderView { name: name@, value: value@ }),
    {
        Header { name: name.to_owned(), value: vstd::slice::slice_to_vec(value) }
    }
}

impl Clone for Header {
    fn clone(&self) -> (copy: Header)
        ensures
            copy@ == self@,
    {
        let value = self.value.clone();
        assert(value@ =~= self.value@);
        Header { name: self.name.clone(), value }
    }
}

/// The fields of `headers` that are not called `name`, in their order.
pub fn without(headers: &Vec<Header>, name: &str) -> (kept: Vec<Header>)
    ensures
        kept.deep_view() == not_named(headers.deep_view(), name@),
{
    let mut kept: Vec<Header> = Vec::new();
    let mut i: usize = 0;
    proof {
        lemma_not_named_empty(name@);
        assert(headers.deep_view().take(0) =~= Seq::<HeaderView>::empty());
        assert(kept.deep_view() =~= Seq::<HeaderView>::empty());
    }
    while i < headers.len()
        invariant
            i <= headers.len(),
            kept.deep_view() == not_named(headers.deep_view().take(i as int), name@),
        decreases headers.len() - i,
    {
        let ghost before = kept.deep_view();
        let ghost all = headers.deep_view();
        if !name_is(headers[i].name.as_str(), name) {
            kept.push(headers[i].clone());
            assert(kept.deep_view() =~= before.push(all[i as int]));
        }
        proof {
            assert(all.take(i + 1) =~= all.take(i as int).push(all[i as int]));
            lemma_not_named_push(all.take(i as int), all[i as int], name@);
        }
        i += 1;
    }
    proof {
        assert(headers.deep_view().take(headers.len() as int) =~= headers.deep_view());
    }
    kept
}

/// The values that `headers` gives for `name`, in their order.
pub fn values(headers: &Vec<Header>, name: &str) -> (found: Vec<Vec<u8>>)
    ensures
        found.deep_view() == values_of(headers.deep_view(), name@),
{
    let mut found: Vec<Vec<u8>> = Vec::new();
    let mut i: usize = 0;
    proof {
        lemma_values_of_empty(name@);
        assert(headers.deep_view().take(0) =~= Seq::<HeaderView>::empty());
        assert(found.deep_view() =~= Seq::<Seq<u8>>::empty());
    }
    while i < headers.len()
        invariant
            i <= headers.len(),
            found.deep_view() == values_of(headers.deep_view().take(i as int), name@),
        decreases headers.len() - i,
    {
        let ghost before = found.deep_view();
        let ghost all = headers.deep_view();
        if name_is(headers[i].name.as_str(), name) {
            let value = headers[i].value.clone();
            assert(value.deep_view() =~= all[i as int].value);
            found.push(value);
            assert(found.deep_view() =~= before.push(all[i as int].value));
        }
        proof {
            assert(all.take(i + 1) =~= all.take(i as int).push(all[i as int]));
            lemma_values_of_push(all.take(i as int), all[i as int], name@);
        }
        i += 1;
    }
    proof {
        assert(headers.deep_view().take(headers.len() as int) =~= headers.deep_view());
    }
    found
}

/// No field is left of no fields.
pub proof fn lemma_not_named_empty(name: Seq<char>)
    ensures
        not_named(Seq::<HeaderView>::empty(), name) == Seq::<HeaderView>::empty(),
{
    reveal(Seq::filter);
}

/// A field put at the end stays at the end unless it is called `name`.
pub proof fn lemma_not_named_push(headers: Seq<HeaderView>, last: HeaderView, name: Seq<char>)
    ensures
        not_named(headers.push(last), name) == if names_match(last.name, name) {
            not_named(headers, name)
        } else {
            not_named(headers, name).push(last)
        },
{
    headers.lemma_filter_push(last, |h: HeaderView| !names_match(h.name, name));
}

/// No fields give no values.
pub proof fn lemma_values_of_empty(name: Seq<char>)
    ensures
        values_of(Seq::<HeaderView>::empty(), name) == Seq::<Seq<u8>>::empty(),
{
    reveal(Seq::filter);
    assert(values_of(Seq::<HeaderView>::empty(), name) =~= Seq::<Seq<u8>>::empty());
}

/// A field put at the end gives the last value of its name, and none of any other.
pub proof fn lemma_values_of_push(headers: Seq<HeaderView>, last: HeaderView, name: Seq<char>)
    ensures
        values_of(headers.push(last), name) == if names_match(last.name, name) {
            values_of(headers, name).push(last.value)
        } else {
            values_of(headers, name)
        },
{
    headers.lemma_filter_push(last, |h: HeaderView| names_match(h.name, name));
    if names_match(last.name, name) {
        assert(values_of(headers.push(last), name) =~= values_of(headers, name).push(last.value));
    }
}

/// Every name denotes the field that it names.
pub proof fn lemma_names_match_reflexive(a: Seq<char>)
    ensures
        names_match(a, a),
{
}

/// Which of two names is asked for the other makes no difference.
pub proof fn lemma_names_match_symmetric(a: Seq<char>, b: Seq<char>)
    requires
        names_match(a, b),
    ensures
        names_match(b, a),
{
    let x = encode_utf8(a);
    let y = encode_utf8(b);
    assert forall|i: int| 0 <= i < y.len() implies lower(#[trigger] y[i]) == lower(x[i]) by {
        assert(lower(x[i]) == lower(y[i]));
    }
}

/// Two names that denote the same field as a third denote the same field.
pub proof fn lemma_names_match_transitive(a: Seq<char>, b: Seq<char>, c: Seq<char>)
    requires
        names_match(a, b),
        names_match(b, c),
    ensures
        names_match(a, c),
{
    let x = encode_utf8(a);
    let y = encode_utf8(b);
    let z = encode_utf8(c);
    assert forall|i: int| 0 <= i < x.len() implies lower(#[trigger] x[i]) == lower(z[i]) by {
        assert(lower(x[i]) == lower(y[i]));
        assert(lower(y[i]) == lower(z[i]));
    }
}

/// None of the fields that `not_named` leaves is called `name`.
pub proof fn lemma_not_named_leaves_none(headers: Seq<HeaderView>, name: Seq<char>, i: int)
    requires
        0 <= i < not_named(headers, name).len(),
    ensures
        !names_match(not_named(headers, name)[i].name, name),
{
    headers.lemma_filter_pred(|h: HeaderView| !names_match(h.name, name), i);
}

/// Once the fields called `name` are taken out, no value is left under that
/// name, however it is spelled.
pub proof fn lemma_not_named_has_none(headers: Seq<HeaderView>, name: Seq<char>, other: Seq<char>)
    requires
        names_match(other, name),
    ensures
        values_of(not_named(headers, name), other) == Seq::<Seq<u8>>::empty(),
    decreases headers.len(),
{
    if headers.len() == 0 {
        lemma_not_named_empty(name);
        lemma_values_of_empty(other);
    } else {
        let front = headers.drop_last();
        let last = headers.last();
        assert(headers =~= front.push(last));
        lemma_not_named_push(front, last, name);
        lemma_not_named_has_none(front, name, other);
        if !names_match(last.name, name) {
            lemma_values_of_push(not_named(front, name), last, other);
            if names_match(last.name, other) {
                lemma_names_match_transitive(last.name, other, name);
            }
        }
    }
}

/// Taking out the fields called `name` leaves the values of every other
/// name as they were, in their order.
pub proof fn lemma_not_named_keeps_others(
    headers: Seq<HeaderView>,
    name: Seq<char>,
    other: Seq<char>,
)
    requires
        !names_match(other, name),
    ensures
        values_of(not_named(headers, name), other) == values_of(headers, other),
    decreases headers.len(),
{
    if headers.len() == 0 {
        lemma_not_named_empty(name);
    } else {
        let front = headers.drop_last();
        let last = headers.last();
        assert(headers =~= front.push(last));
        lemma_not_named_push(front, last, name);
        lemma_not_named_keeps_others(front, name, other);
        lemma_values_of_push(front, last, other);
        if names_match(last.name, name) {
            if names_match(last.name, other) {
                lemma_names_match_symmetric(last.name, other);
                lemma_names_match_transitive(other, last.name, name);
            }
        } else {
            lemma_values_of_push(not_named(front, name), last, other);
        }
    }
}

/// Taking out the fields called `name` and leaving aside the fields that
/// `ignored` picks comes to the same in either order.
pub proof fn lemma_but_for_commutes(
    headers: Seq<HeaderView>,
    name: Seq<char>,
    ignored: spec_fn(Seq<char>) -> bool,
)
    ensures
        but_for(not_named(headers, name), ignored) == not_named(but_for(headers, ignored), name),
    decreases headers.len(),
{
    let kept = |h: HeaderView| !ignored(h.name);
    if headers.len() == 0 {
        lemma_not_named_empty(name);
        assert(but_for(headers, ignored) =~= Seq::<HeaderView>::empty()) by {
            reveal(Seq::filter);
        }
        assert(headers =~= Seq::<HeaderView>::empty());
    } else {
        let front = headers.drop_last();
        let last = headers.last();
        assert(headers =~= front.push(last));
        lemma_but_for_commutes(front, name, ignored);
        lemma_not_named_push(front, last, name);
        front.lemma_filter_push(last, kept);
        not_named(front, name).lemma_filter_push(last, kept);
        lemma_not_named_push(but_for(front, ignored), last, name);
    }
}

} // verus!
