//! JSON values: what the codec builds and reads, numbers as their literal
//! text, and the way to and from JSON text.

use crate::serialization::all_digits;
use crate::serialization::digit_of;
use crate::serialization::digits_of;
use crate::serialization::digits_value;
use crate::serialization::hex_digit;
use crate::serialization::is_lower_hex;
use crate::serialization::lemma_digit_reads_back;
use crate::serialization::lemma_digits_of;
use serde_json::Value;
use vstd::prelude::*;
use vstd::string::StrSliceExecFns;
use vstd::string::StringExecFns;

verus! {

/// A JSON number, held as its literal text.
#[derive(Debug, PartialEq, Eq)]
pub struct Number(pub String);

/// A JSON value. An object keeps its members in the order given; where a key
/// occurs more than once the last member counts.
#[derive(Debug, PartialEq, Eq)]
pub enum Json {
    Null,
    Bool(bool),
    Number(Number),
    String(String),
    Array(Vec<Json>),
    Object(Vec<(String, Json)>),
}

/// The mathematical value of a [`Json`].
pub enum JsonView {
    Null,
    Bool(bool),
    Number(Seq<char>),
    String(Seq<char>),
    Array(Seq<JsonView>),
    Object(Seq<(Seq<char>, JsonView)>),
}

impl View for Number {
    type V = Seq<char>;

    open spec fn view(&self) -> Seq<char> {
        self.0@
    }
}

impl View for Json {
    type V = JsonView;

    open spec fn view(&self) -> JsonView
        decreases self,
    {
        match self {
            Json::Null => JsonView::Null,
            Json::Bool(b) => JsonView::Bool(*b),
            Json::Number(n) => JsonView::Number(n@),
            Json::String(s) => JsonView::String(s@),
            Json::Array(items) => JsonView::Array(
                Seq::new(
                    items@.len(),
                    |i: int|
                        if 0 <= i < items@.len() {
                            items@[i].view()
                        } else {
                            JsonView::Null
                        },
                ),
            ),
            Json::Object(members) => JsonView::Object(
                Seq::new(
                    members@.len(),
                    |i: int|
                        (
                            members@[i].0@,
                            if 0 <= i < members@.len() {
                                members@[i].1.view()
                            } else {
                                JsonView::Null
                            },
                        ),
                ),
            ),
        }
    }
}

/// The values of the items of an array.
pub open spec fn items_view(items: Seq<Json>) -> Seq<JsonView> {
    Seq::new(items.len(), |i: int| items[i]@)
}

/// The keys and values of the members of an object.
pub open spec fn members_view(members: Seq<(String, Json)>) -> Seq<(Seq<char>, JsonView)> {
    Seq::new(members.len(), |i: int| (members[i].0@, members[i].1@))
}

/// The value of an array is the values of its items.
pub proof fn lemma_array_view(items: Vec<Json>)
    ensures
        Json::Array(items)@ == JsonView::Array(items_view(items@)),
{
    assert(Json::Array(items)@->Array_0 =~= items_view(items@));
}

/// The value of an object is the keys and values of its members.
pub proof fn lemma_object_view(members: Vec<(String, Json)>)
    ensures
        Json::Object(members)@ == JsonView::Object(members_view(members@)),
{
    let whole = Json::Object(members);
    assert(whole@ is Object);
    let left = whole@->Object_0;
    let right = members_view(members@);
    assert(whole->Object_0 == members);
    assert(left.len() == members@.len());
    assert(left.len() == right.len());
    assert forall|i: int| 0 <= i < left.len() implies left[i] == right[i] by {
        assert(left[i].0 == members@[i].0@);
        assert(left[i].1 == members@[i].1@);
    }
    assert(left =~= right);
}

/// The value of the last member with the given key.
pub open spec fn lookup(members: Seq<(Seq<char>, JsonView)>, key: Seq<char>) -> Option<JsonView>
    decreases members.len(),
{
    if members.len() == 0 {
        None
    } else if members.last().0 == key {
        Some(members.last().1)
    } else {
        lookup(members.drop_last(), key)
    }
}

/// A member added at the end is found under its key and hides no other key.
pub proof fn lemma_lookup_push(
    members: Seq<(Seq<char>, JsonView)>,
    name: Seq<char>,
    value: JsonView,
    key: Seq<char>,
)
    ensures
        lookup(members.push((name, value)), key) == if name == key {
            Some(value)
        } else {
            lookup(members, key)
        },
{
    let all = members.push((name, value));
    assert(all.last() == (name, value));
    assert(all.drop_last() =~= members);
}

/// Whether every key of the members is one of the given ones.
pub open spec fn keys_within(members: Seq<(Seq<char>, JsonView)>, known: Set<Seq<char>>) -> bool {
    forall|i: int| 0 <= i < members.len() ==> known.contains(#[trigger] members[i].0)
}

impl Clone for Number {
    fn clone(&self) -> (r: Self)
        ensures
            r@ == self@,
    {
        Number(self.0.clone())
    }
}

impl Clone for Json {
    fn clone(&self) -> (r: Self)
        ensures
            r@ == self@,
        decreases self,
    {
        match self {
            Json::Null => Json::Null,
            Json::Bool(b) => Json::Bool(*b),
            Json::Number(n) => Json::Number(n.clone()),
            Json::String(s) => Json::String(s.clone()),
            Json::Array(items) => {
                let mut out: Vec<Json> = Vec::new();
                let mut i: usize = 0;
                while i < items.len()
                    invariant
                        *self == Json::Array(*items),
                        i <= items.len(),
                        out@.len() == i,
                        forall|j: int| 0 <= j < i ==> out@[j]@ == items@[j]@,
                    decreases items.len() - i,
                {
                    proof {
                        vstd::std_specs::vec::axiom_vec_index_decreases(*items, i as int);
                        assert(self->Array_0 == *items);
                        assert(decreases_to!(*self => self->Array_0));
                        assert(decreases_to!(*items => items[i as int]));
                    }
                    out.push(items[i].clone());
                    i += 1;
                }
                proof {
                    lemma_array_view(out);
                    lemma_array_view(*items);
                    assert(items_view(out@) =~= items_view(items@));
                }
                Json::Array(out)
            },
            Json::Object(members) => {
                let mut out: Vec<(String, Json)> = Vec::new();
                let mut i: usize = 0;
                while i < members.len()
                    invariant
                        *self == Json::Object(*members),
                        i <= members.len(),
                        out@.len() == i,
                        forall|j: int|
                            0 <= j < i ==> out@[j].0@ == members@[j].0@ && out@[j].1@
                                == members@[j].1@,
                    decreases members.len() - i,
                {
                    proof {
                        vstd::std_specs::vec::axiom_vec_index_decreases(*members, i as int);
                        assert(self->Object_0 == *members);
                        assert(decreases_to!(*self => self->Object_0));
                        assert(decreases_to!(*members => members[i as int]));
                        assert(decreases_to!(members[i as int] => members[i as int].1));
                    }
                    out.push((members[i].0.clone(), members[i].1.clone()));
                    i += 1;
                }
                proof {
                    lemma_object_view(out);
                    lemma_object_view(*members);
                    assert(members_view(out@) =~= members_view(members@));
                }
                Json::Object(out)
            },
        }
    }
}

/// Copies a list of values.
pub fn clone_items(items: &Vec<Json>) -> (out: Vec<Json>)
    ensures
        items_view(out@) == items_view(items@),
{
    let mut out: Vec<Json> = Vec::new();
    let mut i: usize = 0;
    while i < items.len()
        invariant
            i <= items.len(),
            out@.len() == i,
            forall|j: int| 0 <= j < i ==> out@[j]@ == items@[j]@,
        decreases items.len() - i,
    {
        out.push(items[i].clone());
        i += 1;
    }
    assert(items_view(out@) =~= items_view(items@));
    out
}

/// Copies a list of members.
pub fn clone_members(members: &Vec<(String, Json)>) -> (out: Vec<(String, Json)>)
    ensures
        members_view(out@) == members_view(members@),
{
    let mut out: Vec<(String, Json)> = Vec::new();
    let mut i: usize = 0;
    while i < members.len()
        invariant
            i <= members.len(),
            out@.len() == i,
            forall|j: int|
                0 <= j < i ==> out@[j].0@ == members@[j].0@ && out@[j].1@ == members@[j].1@,
        decreases members.len() - i,
    {
        out.push((members[i].0.clone(), members[i].1.clone()));
        i += 1;
    }
    assert(members_view(out@) =~= members_view(members@));
    out
}

/// Finds the last member with the given key.
pub fn find<'a>(members: &'a Vec<(String, Json)>, key: &str) -> (r: Option<&'a Json>)
    ensures
        match r {
            Some(j) => lookup(members_view(members@), key@) == Some(j@),
            None => lookup(members_view(members@), key@) is None,
        },
{
    let wanted = key.to_owned();
    let ghost all = members_view(members@);
    let mut i: usize = members.len();
    assert(all.subrange(0, i as int) =~= all);
    while i > 0
        invariant
            i <= members.len(),
            all == members_view(members@),
            wanted@ == key@,
            lookup(all, key@) == lookup(all.subrange(0, i as int), key@),
        decreases i,
    {
        let ghost part = all.subrange(0, i as int);
        assert(part.last() == all[i - 1]);
        assert(part.drop_last() =~= all.subrange(0, i - 1));
        if members[i - 1].0 == wanted {
            return Some(&members[i - 1].1);
        }
        i -= 1;
    }
    None
}

impl Json {
    /// A JSON string with the given text.
    pub fn text(text: &str) -> (r: Json)
        ensures
            r@ == JsonView::String(text@),
    {
        Json::String(text.to_owned())
    }

    /// The text of a JSON string.
    pub fn as_text(&self) -> (r: Option<&String>)
        ensures
            match r {
                Some(s) => self@ == JsonView::String(s@),
                None => !(self@ is String),
            },
    {
        match self {
            Json::String(s) => Some(s),
            _ => None,
        }
    }

    /// The items of a JSON array.
    pub fn as_items(&self) -> (r: Option<&Vec<Json>>)
        ensures
            match r {
                Some(items) => self@ == JsonView::Array(items_view(items@)),
                None => !(self@ is Array),
            },
    {
        match self {
            Json::Array(items) => {
                proof {
                    lemma_array_view(*items);
                }
                Some(items)
            },
            _ => None,
        }
    }

    /// The members of a JSON object.
    pub fn as_members(&self) -> (r: Option<&Vec<(String, Json)>>)
        ensures
            match r {
                Some(members) => self@ == JsonView::Object(members_view(members@)),
                None => !(self@ is Object),
            },
    {
        match self {
            Json::Object(members) => {
                proof {
                    lemma_object_view(*members);
                }
                Some(members)
            },
            _ => None,
        }
    }

    /// The JSON text of the value; none where a number in it is no JSON
    /// number.
    pub fn encode(&self) -> (text: Option<String>)
        ensures
            match text {
                Some(t) => json_text(self@) == Some(t@),
                None => json_text(self@) is None,
            },
    {
        render(self)
    }

    /// The value of a JSON text; none where the text is not JSON.
    pub fn decode(text: &str) -> (r: Option<Json>)
        ensures
            match r {
                Some(json) => json_parse(text@) == Some(json@),
                None => json_parse(text@) is None,
            },
    {
        parse(text)
    }

    /// Whether this is `null`.
    pub fn is_null(&self) -> (r: bool)
        ensures
            r == (self@ is Null),
    {
        match self {
            Json::Null => true,
            _ => false,
        }
    }
}

/// The number that decimal digits stand for, where it fits in 64 bits.
pub open spec fn u64_of_text(text: Seq<char>) -> Option<u64> {
    if text.len() > 0 && all_digits(text, 10) && digits_value(text, 10) <= u64::MAX {
        Some(digits_value(text, 10) as u64)
    } else {
        None
    }
}

/// The number that an optional `-` and decimal digits stand for, where it
/// fits in 64 bits with a sign.
pub open spec fn i64_of_text(text: Seq<char>) -> Option<i64> {
    if text.len() > 0 && text[0] == '-' {
        match u64_of_text(text.subrange(1, text.len() as int)) {
            Some(m) => if m <= 0x8000_0000_0000_0000u64 {
                Some((-(m as int)) as i64)
            } else {
                None
            },
            None => None,
        }
    } else {
        match u64_of_text(text) {
            Some(m) => if m <= 0x7fff_ffff_ffff_ffffu64 {
                Some(m as i64)
            } else {
                None
            },
            None => None,
        }
    }
}

/// The decimal text of an unsigned number.
pub open spec fn text_of_u64(n: u64) -> Seq<char> {
    digits_of(n as nat, 10)
}

/// The decimal text of a signed number.
pub open spec fn text_of_i64(n: i64) -> Seq<char> {
    if n >= 0 {
        digits_of(n as nat, 10)
    } else {
        seq!['-'] + digits_of((-(n as int)) as nat, 10)
    }
}

/// The digits of a prefix stand for no more than all the digits.
pub proof fn lemma_prefix_value(s: Seq<char>, i: int, radix: int)
    requires
        0 <= i <= s.len(),
        1 <= radix,
        all_digits(s, radix),
    ensures
        digits_value(s.subrange(0, i), radix) <= digits_value(s, radix),
    decreases s.len(),
{
    if i == s.len() {
        assert(s.subrange(0, i) =~= s);
    } else {
        let front = s.drop_last();
        assert(front.subrange(0, i) =~= s.subrange(0, i));
        assert forall|k: int| 0 <= k < front.len() implies (#[trigger] digit_of(front[k], radix)) is Some by {
            assert(front[k] == s[k]);
        }
        lemma_prefix_value(front, i, radix);
        let v = digits_value(front, radix);
        let d = digit_of(s.last(), radix).unwrap();
        assert(digit_of(s[s.len() - 1], radix) is Some);
        assert(v * radix + d >= v) by (nonlinear_arith)
            requires
                v >= 0,
                radix >= 1,
                d >= 0,
        ;
    }
}

/// The text of one decimal digit.
fn digit_text(d: u64) -> (r: &'static str)
    requires
        d < 10,
    ensures
        r@ == seq![hex_digit(d as int)],
{
    proof {
        lemma_digit_reads_back(d as int);
        reveal_strlit("0");
        reveal_strlit("1");
        reveal_strlit("2");
        reveal_strlit("3");
        reveal_strlit("4");
        reveal_strlit("5");
        reveal_strlit("6");
        reveal_strlit("7");
        reveal_strlit("8");
        reveal_strlit("9");
    }
    let r = if d == 0 {
        "0"
    } else if d == 1 {
        "1"
    } else if d == 2 {
        "2"
    } else if d == 3 {
        "3"
    } else if d == 4 {
        "4"
    } else if d == 5 {
        "5"
    } else if d == 6 {
        "6"
    } else if d == 7 {
        "7"
    } else if d == 8 {
        "8"
    } else {
        "9"
    };
    assert(r@ =~= seq![hex_digit(d as int)]);
    r
}

/// The decimal text of a number.
pub fn decimal(n: u64) -> (text: String)
    ensures
        text@ == text_of_u64(n),
    decreases n,
{
    if n < 10 {
        digit_text(n).to_owned()
    } else {
        let text = decimal(n / 10).concat(digit_text(n % 10));
        assert(text@ =~= digits_of(n as nat, 10));
        text
    }
}

/// Reads a number of up to 64 bits from decimal digits.
pub fn parse_u64(text: &str) -> (r: Option<u64>)
    ensures
        r == u64_of_text(text@),
{
    let len = text.unicode_len();
    if len == 0 {
        return None;
    }
    let mut value: u64 = 0;
    let mut i: usize = 0;
    while i < len
        invariant
            i <= len,
            len == text@.len(),
            all_digits(text@.subrange(0, i as int), 10),
            value == digits_value(text@.subrange(0, i as int), 10),
        decreases len - i,
    {
        let c = text.get_char(i);
        let ghost next = text@.subrange(0, i + 1);
        proof {
            assert(next.drop_last() =~= text@.subrange(0, i as int));
            assert(next.last() == c);
        }
        if !('0' <= c && c <= '9') {
            assert(digit_of(text@[i as int], 10) is None);
            return None;
        }
        let d = (c as u64) - ('0' as u64);
        assert(digit_of(c, 10) == Some(d as int));
        assert forall|k: int| 0 <= k < next.len() implies (#[trigger] digit_of(next[k], 10)) is Some by {
            if k < i {
                assert(next[k] == text@.subrange(0, i as int)[k]);
            }
        }
        let step = match value.checked_mul(10) {
            Some(tens) => tens.checked_add(d),
            None => None,
        };
        match step {
            Some(v) => {
                value = v;
            },
            None => {
                proof {
                    assert(digits_value(next, 10) > u64::MAX);
                    if all_digits(text@, 10) {
                        lemma_prefix_value(text@, i + 1, 10);
                    }
                }
                return None;
            },
        }
        i += 1;
    }
    assert(text@.subrange(0, len as int) =~= text@);
    Some(value)
}

/// Reads a number of up to 64 bits with a sign from an optional `-` and
/// decimal digits.
pub fn parse_i64(text: &str) -> (r: Option<i64>)
    ensures
        r == i64_of_text(text@),
{
    let len = text.unicode_len();
    if len > 0 && text.get_char(0) == '-' {
        match parse_u64(text.substring_char(1, len)) {
            Some(m) => if m < 0x8000_0000_0000_0000u64 {
                Some(0 - (m as i64))
            } else if m == 0x8000_0000_0000_0000u64 {
                Some(i64::MIN)
            } else {
                None
            },
            None => None,
        }
    } else {
        match parse_u64(text) {
            Some(m) => if m <= 0x7fff_ffff_ffff_ffffu64 {
                Some(m as i64)
            } else {
                None
            },
            None => None,
        }
    }
}

/// The decimal text of a signed number.
pub fn signed_decimal(n: i64) -> (text: String)
    ensures
        text@ == text_of_i64(n),
{
    if n >= 0 {
        decimal(n as u64)
    } else {
        proof {
            reveal_strlit("-");
        }
        let magnitude: u64 = if n == i64::MIN {
            0x8000_0000_0000_0000u64
        } else {
            (0 - n) as u64
        };
        let text = "-".to_owned().concat(decimal(magnitude).as_str());
        assert(text@ =~= text_of_i64(n));
        text
    }
}

/// The decimal text of a number reads back as the number.
pub proof fn lemma_u64_text(n: u64)
    ensures
        u64_of_text(text_of_u64(n)) == Some(n),
        text_of_u64(n).len() > 0,
        text_of_u64(n)[0] != '-',
{
    lemma_digits_of(n as nat, 10);
    assert(is_lower_hex(text_of_u64(n)[0]));
}

/// The decimal text of a signed number reads back as the number.
pub proof fn lemma_i64_text(n: i64)
    ensures
        i64_of_text(text_of_i64(n)) == Some(n),
{
    if n >= 0 {
        lemma_u64_text(n as u64);
    } else {
        let m = (-(n as int)) as u64;
        lemma_u64_text(m);
        let text = text_of_i64(n);
        assert(text.subrange(1, text.len() as int) =~= text_of_u64(m));
    }
}

impl Number {
    /// The number with the given value.
    pub fn from_u64(n: u64) -> (r: Number)
        ensures
            r@ == text_of_u64(n),
    {
        Number(decimal(n))
    }

    /// The number with the given value.
    pub fn from_i64(n: i64) -> (r: Number)
        ensures
            r@ == text_of_i64(n),
    {
        Number(signed_decimal(n))
    }

    /// The number with the given literal text.
    pub fn from_text(text: &str) -> (r: Number)
        ensures
            r@ == text@,
    {
        Number(text.to_owned())
    }

    /// The value, where the number is a whole one of up to 64 bits without a
    /// sign.
    pub fn as_u64(&self) -> (r: Option<u64>)
        ensures
            r == u64_of_text(self@),
    {
        parse_u64(self.0.as_str())
    }

    /// The value, where the number is a whole one of up to 64 bits with a
    /// sign.
    pub fn as_i64(&self) -> (r: Option<i64>)
        ensures
            r == i64_of_text(self@),
    {
        parse_i64(self.0.as_str())
    }
}

/// A JSON value of `serde_json`.
#[verifier::external_type_specification]
#[verifier::external_body]
pub struct ExValue(serde_json::Value);

/// The value that `serde_json` reads from a text, `None` where the text is
/// not JSON.
pub uninterp spec fn json_parse(text: Seq<char>) -> Option<JsonView>;

/// The text that `serde_json` writes for a value, `None` where a number of
/// the value is no JSON number.
pub uninterp spec fn json_text(value: JsonView) -> Option<Seq<char>>;

/// Moves a `serde_json::Value` into a `Json`, variant by variant: a number
/// becomes its `Display` text, an object its members in the order of
/// `serde_json::Map`.
#[verifier::external_body]
fn from_value(value: Value) -> (json: Json) {
    match value {
        Value::Null => Json::Null,
        Value::Bool(b) => Json::Bool(b),
        Value::Number(n) => Json::Number(Number(n.to_string())),
        Value::String(s) => Json::String(s),
        Value::Array(a) => Json::Array(a.into_iter().map(from_value).collect()),
        Value::Object(o) => Json::Object(o.into_iter().map(|(k, v)| (k, from_value(v))).collect()),
    }
}

/// Moves a `Json` into a `serde_json::Value`, variant by variant: a number is
/// read by `serde_json::Number::from_str`, and there is no value where that
/// fails.
#[verifier::external_body]
pub(crate) fn to_value(json: &Json) -> (value: Option<Value>) {
    Some(
        match json {
            Json::Null => Value::Null,
            Json::Bool(b) => Value::Bool(*b),
            Json::Number(n) => Value::Number(n.0.parse().ok()?),
            Json::String(s) => Value::String(s.clone()),
            Json::Array(a) => Value::Array(a.iter().map(to_value).collect::<Option<_>>()?),
            Json::Object(o) => Value::Object(
                o.iter().map(|(k, v)| Some((k.clone(), to_value(v)?))).collect::<Option<_>>()?,
            ),
        },
    )
}

/// `serde_json::from_str`, read as a `serde_json::Value`.
#[verifier::external_body]
pub(crate) fn parse(text: &str) -> (r: Option<Json>)
    ensures
        match r {
            Some(json) => json_parse(text@) == Some(json@),
            None => json_parse(text@) is None,
        },
{
    Some(from_value(serde_json::from_str(text).ok()?))
}

/// `serde_json::to_string` of the value as a `serde_json::Value`.
#[verifier::external_body]
pub(crate) fn render(json: &Json) -> (r: Option<String>)
    ensures
        match r {
            Some(text) => json_text(json@) == Some(text@),
            None => json_text(json@) is None,
        },
{
    serde_json::to_string(&to_value(json)?).ok()
}

} // verus!
