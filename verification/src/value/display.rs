//! The text of a value.

use crate::value::numeric_types::floating::EvalexprFloat;
use crate::value::numeric_types::integer::EvalexprInt;
use crate::value::numeric_types::EvalexprNumericTypes;
use crate::value::{Value, ValueView};
use vstd::prelude::*;
use vstd::string::StringExecFns;

verus! {

/// The texts of `parts`, in their order, with a comma and a space between each two.
pub open spec fn join_texts(parts: Seq<Seq<char>>) -> Seq<char>
    decreases parts.len(),
{
    if parts.len() == 0 {
        Seq::empty()
    } else if parts.len() == 1 {
        parts[0]
    } else {
        join_texts(parts.drop_last()) + seq![',', ' '] + parts.last()
    }
}

/// The text in which a value is displayed.
///
/// A string stands between double quotes, a number stands as its type displays it, a
/// boolean is `true` or `false`, the empty value is `()`, and a tuple is its elements'
/// texts between round brackets, separated by a comma and a space.
pub open spec fn display_text<N: EvalexprNumericTypes>(v: ValueView<N>) -> Seq<char>
    decreases v, 0nat,
{
    match v {
        ValueView::String(s) => seq!['"'] + s + seq!['"'],
        ValueView::Float(f) => f.text(),
        ValueView::Int(i) => i.text(),
        ValueView::Boolean(b) => if b {
            seq!['t', 'r', 'u', 'e']
        } else {
            seq!['f', 'a', 'l', 's', 'e']
        },
        ValueView::Tuple(t) => seq!['('] + joined_display(t, t.len()) + seq![')'],
        ValueView::Empty => seq!['(', ')'],
    }
}

/// The texts of the first `n` elements of `t`, with a comma and a space between each
/// two.
pub open spec fn joined_display<N: EvalexprNumericTypes>(t: Seq<ValueView<N>>, n: nat) -> Seq<
    char,
>
    decreases t, n,
{
    if n == 0 || n > t.len() {
        Seq::empty()
    } else if n == 1 {
        display_text(t[0])
    } else {
        joined_display(t, (n - 1) as nat) + seq![',', ' '] + display_text(t[n - 1])
    }
}

/// The texts in which the elements of a tuple are displayed, one by one.
pub open spec fn display_texts<N: EvalexprNumericTypes>(t: Seq<ValueView<N>>) -> Seq<Seq<char>> {
    Seq::new(t.len(), |i: int| display_text(t[i]))
}

/// The text that a value turns into: a string as it is, without quotes, and every
/// other value as it is displayed.
pub open spec fn str_from_text<N: EvalexprNumericTypes>(v: ValueView<N>) -> Seq<char> {
    match v {
        ValueView::String(s) => s,
        _ => display_text(v),
    }
}

/// The joined texts of the first `n` elements are the join of their texts.
pub proof fn lemma_joined_display<N: EvalexprNumericTypes>(t: Seq<ValueView<N>>, n: nat)
    requires
        n <= t.len(),
    ensures
        joined_display(t, n) == join_texts(display_texts(t).take(n as int)),
    decreases n,
{
    let parts = display_texts(t).take(n as int);
    if n == 0 {
    } else if n == 1 {
    } else {
        lemma_joined_display(t, (n - 1) as nat);
        assert(parts.drop_last() =~= display_texts(t).take(n - 1));
    }
}

/// The text of a tuple is its elements' texts, joined, between round brackets.
pub proof fn lemma_display_of_tuple<N: EvalexprNumericTypes>(t: Seq<ValueView<N>>)
    ensures
        display_text(ValueView::Tuple(t)) == seq!['('] + join_texts(display_texts(t)) + seq![')'],
{
    lemma_joined_display(t, t.len());
    assert(display_texts(t).take(t.len() as int) =~= display_texts(t));
}

/// Joining one more part appends it, after a comma and a space unless it is the first.
pub proof fn lemma_join_next(parts: Seq<Seq<char>>, n: int)
    requires
        0 <= n < parts.len(),
    ensures
        join_texts(parts.take(n + 1)) == if n == 0 {
            parts[n]
        } else {
            join_texts(parts.take(n)) + seq![',', ' '] + parts[n]
        },
{
    let head = parts.take(n + 1);
    assert(head.last() == parts[n]);
    assert(head.drop_last() =~= parts.take(n));
}

/// The texts of the elements of a tuple, joined by a comma and a space.
fn join_elements<N: EvalexprNumericTypes>(t: &Vec<Value<N>>) -> (r: String)
    ensures
        r@ == join_texts(display_texts(crate::value::tuple_view(t@))),
    decreases t,
{
    proof {
        reveal_strlit(", ");
    }
    let ghost parts = display_texts(crate::value::tuple_view(t@));
    let mut out = String::new();
    let mut i: usize = 0;
    while i < t.len()
        invariant
            i <= t.len(),
            parts.len() == t.len(),
            parts == display_texts(crate::value::tuple_view(t@)),
            out@ == join_texts(parts.take(i as int)),
            ", "@ == seq![',', ' '],
        decreases t.len() - i,
    {
        proof {
            lemma_join_next(parts, i as int);
        }
        if i > 0 {
            out.append(", ");
        }
        let piece = t[i].to_string();
        out.append(piece.as_str());
        assert(out@ =~= join_texts(parts.take(i + 1)));
        i += 1;
    }
    assert(parts.take(i as int) =~= parts);
    out
}

impl<N: EvalexprNumericTypes> Value<N> {
    /// The text in which `self` is displayed: see [`display_text`].
    pub fn to_string(&self) -> (r: String)
        ensures
            r@ == display_text(self@),
        decreases self,
    {
        match self {
            Value::String(s) => {
                proof {
                    reveal_strlit("\"");
                }
                let mut out = String::from_str("\"");
                out.append(s.as_str());
                out.append("\"");
                assert(out@ =~= seq!['"'] + s@ + seq!['"']);
                out
            },
            Value::Float(f) => f.to_text(),
            Value::Int(i) => i.to_text(),
            Value::Boolean(b) => {
                proof {
                    reveal_strlit("true");
                    reveal_strlit("false");
                }
                let out = if *b {
                    String::from_str("true")
                } else {
                    String::from_str("false")
                };
                assert(out@ =~= display_text(self@));
                out
            },
            Value::Tuple(t) => {
                proof {
                    reveal_strlit("(");
                    reveal_strlit(")");
                    crate::value::lemma_view_of_tuple(*t);
                    lemma_display_of_tuple(self@->Tuple_0);
                }
                let mut out = String::from_str("(");
                let inner = join_elements(t);
                out.append(inner.as_str());
                out.append(")");
                out
            },
            Value::Empty => {
                proof {
                    reveal_strlit("()");
                }
                let out = String::from_str("()");
                assert(out@ =~= seq!['(', ')']);
                out
            },
        }
    }

    /// The text that `self` turns into: a string as it is, and every other value as it
    /// is displayed.
    pub fn str_from(&self) -> (r: String)
        ensures
            r@ == str_from_text(self@),
    {
        match self {
            Value::String(v) => v.clone(),
            Value::Float(v) => v.to_text(),
            Value::Int(v) => v.to_text(),
            Value::Boolean(_) => self.to_string(),
            Value::Tuple(_) => self.to_string(),
            Value::Empty => self.to_string(),
        }
    }
}

} // verus!
