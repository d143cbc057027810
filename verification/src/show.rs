//! How values are shown to a person: the one-line text that names a value and
//! lists its parts, as the `{:?}` format writes it for a type that derives it.
//! A refusal quotes the refused message in this form.

use crate::json::{number_of, Json, NumericValue};
use crate::wire::Wire;
use vstd::prelude::*;

verus! {

/// A value that can be shown.
pub trait Show: Wire {
    /// The text that shows a value.
    spec fn shown(m: Self::Model) -> Seq<char>;

    /// Writes the text that shows a value.
    fn show(&self) -> (s: String)
        ensures
            s@ == Self::shown(self.model()),
    ;
}

/// A text in double quotes with its special characters escaped, as the
/// standard library shows a string.
pub uninterp spec fn quoted(text: Seq<char>) -> Seq<char>;

/// The text that the JSON library shows a number as.
pub uninterp spec fn number_shown(n: NumericValue) -> Seq<char>;

/// The character of a decimal digit.
pub open spec fn digit(d: int) -> char {
    if d == 0 {
        '0'
    } else if d == 1 {
        '1'
    } else if d == 2 {
        '2'
    } else if d == 3 {
        '3'
    } else if d == 4 {
        '4'
    } else if d == 5 {
        '5'
    } else if d == 6 {
        '6'
    } else if d == 7 {
        '7'
    } else if d == 8 {
        '8'
    } else {
        '9'
    }
}

/// The decimal digits of a natural number, without leading zeros.
pub open spec fn digits(n: nat) -> Seq<char>
    decreases n,
{
    if n < 10 {
        seq![digit(n as int)]
    } else {
        digits(n / 10).push(digit((n % 10) as int))
    }
}

/// An integer in decimal, with a minus sign before a negative one.
pub open spec fn decimal(v: int) -> Seq<char> {
    if v < 0 {
        seq!['-'] + digits((-v) as nat)
    } else {
        digits(v as nat)
    }
}

/// What shows an optional value: `None`, or the value inside `Some(..)`.
pub open spec fn shown_opt<T: Show>(m: Option<T::Model>) -> Seq<char> {
    match m {
        Some(x) => "Some("@ + T::shown(x) + ")"@,
        None => "None"@,
    }
}

/// The first `n` items of a list, each shown, with `, ` between them.
pub open spec fn listed<T: Show>(items: Seq<T::Model>, n: nat) -> Seq<char>
    decreases n,
{
    if n == 0 || n > items.len() {
        Seq::empty()
    } else if n == 1 {
        T::shown(items[0])
    } else {
        listed::<T>(items, (n - 1) as nat) + ", "@ + T::shown(items[n - 1])
    }
}

/// `<str as Debug>::fmt`, by way of `format!`: the text in double quotes, with
/// the characters escaped that the standard library escapes. What is written
/// depends on the text alone.
#[verifier::external_body]
pub(crate) fn quote(text: &str) -> (s: String)
    ensures
        s@ == quoted(text@),
{
    format!("{:?}", text)
}

/// `<serde_json::Number as Debug>::fmt`, by way of `format!`: `Number(..)`
/// around the number as JSON writes it. An integer is written in decimal.
#[verifier::external_body]
pub(crate) fn number_show(n: &serde_json::Number) -> (s: String)
    ensures
        s@ == number_shown(number_of(*n)),
        number_of(*n) matches NumericValue::Int(v) ==> s@ == "Number("@ + decimal(v) + ")"@,
{
    format!("{:?}", n)
}

/// The text of one decimal digit.
fn digit_text(d: u64) -> (r: &'static str)
    requires
        d < 10,
    ensures
        r@ == seq![digit(d as int)],
{
    proof {
        reveal_strlit("0");
        reveal_strlit("1");
        reveal_strlit("2");
        reveal_strlit("3");
        reveal_strlit("4");
        reveal_strlit("5");
        reveal_strlit("6");
        reveal_strlit("7");
        reveal_strlit("8");
        reveal_strlit("9");
    }
    let r = if d == 0 {
        "0"
    } else if d == 1 {
        "1"
    } else if d == 2 {
        "2"
    } else if d == 3 {
        "3"
    } else if d == 4 {
        "4"
    } else if d == 5 {
        "5"
    } else if d == 6 {
        "6"
    } else if d == 7 {
        "7"
    } else if d == 8 {
        "8"
    } else {
        "9"
    };
    assert(r@ =~= seq![digit(d as int)]);
    r
}

/// Writes a natural number in decimal.
pub fn digits_text(n: u64) -> (s: String)
    ensures
        s@ == digits(n as nat),
    decreases n,
{
    if n < 10 {
        digit_text(n).to_owned()
    } else {
        let mut s = digits_text(n / 10);
        let last = digit_text(n % 10);
        s.append(last);
        assert(s@ =~= digits((n / 10) as nat).push(digit((n % 10) as int)));
        s
    }
}

/// Writes an integer in decimal.
pub fn decimal_text(v: i64) -> (s: String)
    ensures
        s@ == decimal(v as int),
{
    if v < 0 {
        let magnitude: u64 = (-(v + 1)) as u64 + 1;
        let mut s = "-".to_owned();
        proof {
            reveal_strlit("-");
            assert("-"@ =~= seq!['-']);
        }
        let rest = digits_text(magnitude);
        s.append(rest.as_str());
        s
    } else {
        digits_text(v as u64)
    }
}

/// Writes what shows an optional value.
pub fn show_opt<T: Show>(value: &Option<T>) -> (s: String)
    ensures
        s@ == shown_opt::<T>(crate::wire::opt_model(*value)),
{
    match value {
        Some(x) => {
            let mut s = "Some(".to_owned();
            let inner = x.show();
            s.append(inner.as_str());
            s.append(")");
            s
        },
        None => "None".to_owned(),
    }
}

impl Show for bool {
    open spec fn shown(m: bool) -> Seq<char> {
        if m {
            "true"@
        } else {
            "false"@
        }
    }

    fn show(&self) -> (s: String) {
        if *self {
            "true".to_owned()
        } else {
            "false".to_owned()
        }
    }
}

impl Show for i32 {
    open spec fn shown(m: i32) -> Seq<char> {
        decimal(m as int)
    }

    fn show(&self) -> (s: String) {
        decimal_text(*self as i64)
    }
}

impl Show for u16 {
    open spec fn shown(m: u16) -> Seq<char> {
        decimal(m as int)
    }

    fn show(&self) -> (s: String) {
        decimal_text(*self as i64)
    }
}

impl Show for String {
    open spec fn shown(m: Seq<char>) -> Seq<char> {
        quoted(m)
    }

    fn show(&self) -> (s: String) {
        quote(self.as_str())
    }
}

impl Show for serde_json::Number {
    open spec fn shown(m: NumericValue) -> Seq<char> {
        number_shown(m)
    }

    fn show(&self) -> (s: String) {
        number_show(self)
    }
}

impl<T: Show> Show for Vec<T> {
    /// The items in square brackets.
    open spec fn shown(m: Seq<T::Model>) -> Seq<char> {
        "["@ + listed::<T>(m, m.len()) + "]"@
    }

    fn show(&self) -> (s: String) {
        let mut s = "[".to_owned();
        let mut i: usize = 0;
        assert(s@ =~= "["@ + listed::<T>(self.model(), 0));
        while i < self.len()
            invariant
                i <= self.len(),
                self.model().len() == self.len(),
                s@ == "["@ + listed::<T>(self.model(), i as nat),
            decreases self.len() - i,
        {
            if i > 0 {
                s.append(", ");
            }
            let item = self[i].show();
            s.append(item.as_str());
            proof {
                let m = self.model();
                assert(m[i as int] == self@[i as int].model());
                if i == 0 {
                    assert(s@ =~= "["@ + T::shown(m[0]));
                } else {
                    let sooner = listed::<T>(m, i as nat);
                    assert(s@ =~= "["@ + (sooner + ", "@ + T::shown(m[i as int])));
                }
            }
            i = i + 1;
        }
        s.append("]");
        s
    }
}

impl Json {
    /// The text that shows a document: the kind of each node around what the
    /// node holds, and the members of a record as pairs in the order they are
    /// kept.
    pub open spec fn shown(self) -> Seq<char>
        decreases self,
    {
        match self {
            Json::Null => "Null"@,
            Json::Bool(b) => "Bool("@ + <bool as Show>::shown(b) + ")"@,
            Json::Number(n) => "Number("@ + number_shown(number_of(n)) + ")"@,
            Json::Text(s) => "Text("@ + quoted(s@) + ")"@,
            Json::List(items) => "List(["@ + Json::items_shown(items@, items@.len()) + "])"@,
            Json::Record(members) => "Record(["@ + Json::members_shown(
                members@,
                members@.len(),
            ) + "])"@,
        }
    }

    /// The first `n` items of a list, each shown, with `, ` between them.
    pub open spec fn items_shown(items: Seq<Json>, n: nat) -> Seq<char>
        decreases items, n,
    {
        if n == 0 || n > items.len() {
            Seq::empty()
        } else if n == 1 {
            items[0].shown()
        } else {
            Json::items_shown(items, (n - 1) as nat) + ", "@ + items[n - 1].shown()
        }
    }

    /// One member, shown as a pair of its name and what it holds.
    pub open spec fn member_shown(member: (String, Json)) -> Seq<char>
        decreases member,
    {
        "("@ + quoted(member.0@) + ", "@ + member.1.shown() + ")"@
    }

    /// The first `n` members of a record, each shown as a pair, with `, `
    /// between them.
    pub open spec fn members_shown(members: Seq<(String, Json)>, n: nat) -> Seq<char>
        decreases members, n,
    {
        if n == 0 || n > members.len() {
            Seq::empty()
        } else if n == 1 {
            Json::member_shown(members[0])
        } else {
            Json::members_shown(members, (n - 1) as nat) + ", "@ + Json::member_shown(
                members[n - 1],
            )
        }
    }

    /// Writes the first `n` items of a list.
    fn show_items(items: &Vec<Json>, n: usize) -> (s: String)
        requires
            n <= items.len(),
        ensures
            s@ == Json::items_shown(items@, n as nat),
        decreases items@, n,
    {
        if n == 0 {
            String::new()
        } else if n == 1 {
            items[0].show()
        } else {
            let mut s = Json::show_items(items, n - 1);
            s.append(", ");
            let last = items[n - 1].show();
            s.append(last.as_str());
            s
        }
    }

    /// Writes the first `n` members of a record.
    fn show_members(members: &Vec<(String, Json)>, n: usize) -> (s: String)
        requires
            n <= members.len(),
        ensures
            s@ == Json::members_shown(members@, n as nat),
        decreases members@, n,
    {
        if n == 0 {
            String::new()
        } else {
            let mut s = if n == 1 {
                String::new()
            } else {
                let mut head = Json::show_members(members, n - 1);
                head.append(", ");
                head
            };
            let ghost before = s@;
            s.append("(");
            let name = quote(members[n - 1].0.as_str());
            s.append(name.as_str());
            s.append(", ");
            let held = members[n - 1].1.show();
            s.append(held.as_str());
            s.append(")");
            assert(s@ =~= before + Json::member_shown(members@[n - 1]));
            assert(Seq::<char>::empty() + Json::member_shown(members@[n - 1])
                =~= Json::member_shown(members@[n - 1]));
            s
        }
    }

    /// Writes the text that shows a document.
    pub fn show(&self) -> (s: String)
        ensures
            s@ == self.shown(),
        decreases self,
    {
        match self {
            Json::Null => "Null".to_owned(),
            Json::Bool(b) => {
                let mut s = "Bool(".to_owned();
                s.append(b.show().as_str());
                s.append(")");
                s
            },
            Json::Number(n) => {
                let mut s = "Number(".to_owned();
                s.append(number_show(n).as_str());
                s.append(")");
                s
            },
            Json::Text(t) => {
                let mut s = "Text(".to_owned();
                s.append(quote(t.as_str()).as_str());
                s.append(")");
                s
            },
            Json::List(items) => {
                let mut s = "List([".to_owned();
                s.append(Json::show_items(items, items.len()).as_str());
                s.append("])");
                s
            },
            Json::Record(members) => {
                let mut s = "Record([".to_owned();
                s.append(Json::show_members(members, members.len()).as_str());
                s.append("])");
                s
            },
        }
    }
}

} // verus!
