//! The error record of a failed parse, and its rendering.
//!
//! An [`Error`] is one of three shapes: the rule sets the matcher expected
//! and rejected at its deepest position, or a custom message at a position,
//! or a custom message over a span. Rendering is total: every record, however
//! degenerate, yields a report.

use vstd::prelude::*;
use vstd::string::*;
use crate::source::{Position, Span, line_number_of, column_of, line_text_of};
use crate::text::{spaces, dashes, dec_of, append_spaces, dec_str, spaces_like};

verus! {

/// An `enum` which defines possible errors.
#[derive(Clone, Debug, Eq, Hash, PartialEq)]
pub enum Error<'i, R> {
    /// Generated parsing error with expected and unexpected rules and a
    /// position.
    ParsingError {
        /// Positive attempts: the rules that were expected.
        positives: Vec<R>,
        /// Negative attempts: the rules that were not expected.
        negatives: Vec<R>,
        /// Deepest position of attempts.
        pos: Position<'i>,
    },
    /// Custom error with a message and a position.
    CustomErrorPos {
        /// Short explanation.
        message: String,
        /// Error position for formatting.
        pos: Position<'i>,
    },
    /// Custom error with a message and a span defined by a start and end
    /// position.
    CustomErrorSpan {
        /// Short explanation.
        message: String,
        /// Error span for formatting.
        span: Span<'i>,
    },
}

/// The character sequences of a sequence of strings.
pub open spec fn str_views(items: Seq<String>) -> Seq<Seq<char>> {
    items.map_values(|s: String| s@)
}

/// The items joined with `sep` between each two.
pub open spec fn join_sep(items: Seq<Seq<char>>, sep: Seq<char>) -> Seq<char>
    decreases items.len(),
{
    if items.len() == 0 {
        Seq::empty()
    } else if items.len() == 1 {
        items[0]
    } else {
        join_sep(items.drop_last(), sep) + sep + items.last()
    }
}

/// A non-empty item list as an English enumeration: a single item stands
/// alone, two are joined with `" or "`, three or more are joined with `", "`
/// and the last is joined with `", or "`.
pub open spec fn enumerate_views(items: Seq<Seq<char>>) -> Seq<char> {
    if items.len() == 1 {
        items[0]
    } else if items.len() == 2 {
        items[0] + " or "@ + items[1]
    } else {
        join_sep(items.take(items.len() - 1), ", "@) + ", or "@ + items.last()
    }
}

/// `out` holds one possible rendering of each rule of `rules`, in order,
/// through `f`.
pub open spec fn renders_to<R, F: Fn(&R) -> String>(f: F, rules: Seq<R>, out: Seq<String>) -> bool {
    &&& out.len() == rules.len()
    &&& forall|i: int| 0 <= i < out.len() ==> call_ensures(f, (&rules[i],), #[trigger] out[i])
}

/// Applies `f` to each rule in order.
fn render_all<R, F: Fn(&R) -> String>(rules: &Vec<R>, f: &F) -> (out: Vec<String>)
    requires
        forall|i: int|
            #![trigger rules@[i]]
            0 <= i < rules@.len() ==> call_requires(*f, (&rules@[i],)),
    ensures
        renders_to(*f, rules@, out@),
{
    let mut out: Vec<String> = Vec::new();
    let mut j: usize = 0;
    while j < rules.len()
        invariant
            forall|i: int|
                #![trigger rules@[i]]
                0 <= i < rules@.len() ==> call_requires(*f, (&rules@[i],)),
            j <= rules@.len(),
            out@.len() == j,
            forall|i: int| 0 <= i < j ==> call_ensures(*f, (&rules@[i],), #[trigger] out@[i]),
        decreases rules@.len() - j,
    {
        out.push(f(&rules[j]));
        j = j + 1;
    }
    out
}

/// Joins already-rendered items as the English enumeration of
/// [`enumerate_views`].
pub fn join_rendered(items: &Vec<String>) -> (r: String)
    requires
        items@.len() >= 1,
    ensures
        r@ == enumerate_views(str_views(items@)),
{
    let n = items.len();
    if n == 1 {
        let r = items[0].clone();
        proof {
            assert(r@ =~= enumerate_views(str_views(items@)));
        }
        r
    } else if n == 2 {
        let mut s = items[0].clone();
        s.append(" or ");
        s.append(items[1].as_str());
        proof {
            assert(s@ =~= enumerate_views(str_views(items@)));
        }
        s
    } else {
        let mut s = String::new();
        let mut i: usize = 0;
        while i < n - 1
            invariant
                n == items@.len(),
                3 <= n,
                i <= n - 1,
                i == 0 ==> s@ == Seq::<char>::empty(),
                i >= 1 ==> s@ == join_sep(str_views(items@).take(i as int), ", "@),
            decreases n - 1 - i,
        {
            if i > 0 {
                s.append(", ");
            }
            s.append(items[i].as_str());
            proof {
                let vs = str_views(items@);
                if i == 0 {
                    assert(vs.take(1) =~= seq![vs[0]]);
                    assert(s@ =~= join_sep(vs.take(1), ", "@));
                } else {
                    assert(vs.take(i + 1).drop_last() =~= vs.take(i as int));
                    assert(s@ =~= join_sep(vs.take(i + 1), ", "@));
                }
            }
            i = i + 1;
        }
        s.append(", or ");
        s.append(items[n - 1].as_str());
        proof {
            assert(s@ =~= enumerate_views(str_views(items@)));
        }
        s
    }
}

/// Renders each rule of a non-empty list through `f` and joins the results
/// as an English enumeration.
pub fn enumerate<R, F: Fn(&R) -> String>(rules: &Vec<R>, f: F) -> (r: String)
    requires
        rules@.len() >= 1,
        forall|i: int|
            #![trigger rules@[i]]
            0 <= i < rules@.len() ==> call_requires(f, (&rules@[i],)),
    ensures
        exists|out: Seq<String>|
            #[trigger] renders_to(f, rules@, out) && r@ == enumerate_views(str_views(out)),
{
    let rendered = render_all(rules, &f);
    let r = join_rendered(&rendered);
    proof {
        assert(renders_to(f, rules@, rendered@));
    }
    r
}

/// The message for the given already-rendered rule sets: `"unexpected {n}"`
/// and/or `"expected {p}"` as each set is non-empty, or
/// `"unknown parsing error"` when both are empty.
pub open spec fn parsing_error_message_views(pos: Seq<Seq<char>>, neg: Seq<Seq<char>>) -> Seq<
    char,
> {
    if neg.len() > 0 && pos.len() > 0 {
        "unexpected "@ + enumerate_views(neg) + "; expected "@ + enumerate_views(pos)
    } else if neg.len() > 0 {
        "unexpected "@ + enumerate_views(neg)
    } else if pos.len() > 0 {
        "expected "@ + enumerate_views(pos)
    } else {
        "unknown parsing error"@
    }
}

/// Composes the failure message from the expected (`positives`) and
/// unexpected (`negatives`) rules, rendering each rule through `f`.
pub fn parsing_error_message<R, F: Fn(&R) -> String>(
    positives: &Vec<R>,
    negatives: &Vec<R>,
    f: F,
) -> (r: String)
    requires
        forall|i: int|
            #![trigger positives@[i]]
            0 <= i < positives@.len() ==> call_requires(f, (&positives@[i],)),
        forall|i: int|
            #![trigger negatives@[i]]
            0 <= i < negatives@.len() ==> call_requires(f, (&negatives@[i],)),
    ensures
        exists|ps: Seq<String>, ns: Seq<String>|
            #![trigger renders_to(f, positives@, ps), renders_to(f, negatives@, ns)]
            renders_to(f, positives@, ps) && renders_to(f, negatives@, ns) && r@
                == parsing_error_message_views(str_views(ps), str_views(ns)),
{
    let rp = render_all(positives, &f);
    let rn = render_all(negatives, &f);
    let r: String = if !negatives.is_empty() && !positives.is_empty() {
        let mut s = String::from_str("unexpected ");
        let jn = join_rendered(&rn);
        s.append(jn.as_str());
        s.append("; expected ");
        let jp = join_rendered(&rp);
        s.append(jp.as_str());
        s
    } else if !negatives.is_empty() {
        let mut s = String::from_str("unexpected ");
        let jn = join_rendered(&rn);
        s.append(jn.as_str());
        s
    } else if !positives.is_empty() {
        let mut s = String::from_str("expected ");
        let jp = join_rendered(&rp);
        s.append(jp.as_str());
        s
    } else {
        String::from_str("unknown parsing error")
    };
    proof {
        assert(renders_to(f, positives@, rp@));
        assert(renders_to(f, negatives@, rn@));
        assert(r@ =~= parsing_error_message_views(str_views(rp@), str_views(rn@)));
    }
    r
}

/// `msg` is a message the record can produce: its stored message for the
/// custom shapes; for a rule-set record, the composed message for some
/// rendering of its rules.
pub open spec fn is_message_of<'i, R>(e: Error<'i, R>, msg: Seq<char>) -> bool {
    match e {
        Error::ParsingError { positives, negatives, .. } => exists|
            ps: Seq<Seq<char>>,
            ns: Seq<Seq<char>>,
        |
            ps.len() == positives@.len() && ns.len() == negatives@.len() && msg
                == #[trigger] parsing_error_message_views(ps, ns),
        Error::CustomErrorPos { message, .. } => msg == message@,
        Error::CustomErrorSpan { message, .. } => msg == message@,
    }
}

/// Relies on the `format!` macro with the `{:?}` formatter: the standard
/// debug rendering of a value. Nothing is promised of the resulting text.
#[verifier::external_body]
fn debug_render<R: core::fmt::Debug>(r: &R) -> String {
    format!("{:?}", r)
}

/// The input text the record is anchored in.
pub open spec fn anchor_text<'i, R>(e: Error<'i, R>) -> Seq<char> {
    match e {
        Error::ParsingError { pos, .. } => pos.text(),
        Error::CustomErrorPos { pos, .. } => pos.text(),
        Error::CustomErrorSpan { span, .. } => span.text(),
    }
}

/// The offset the record is anchored at: its position's offset, or its
/// span's start.
pub open spec fn anchor_offset<'i, R>(e: Error<'i, R>) -> nat {
    match e {
        Error::ParsingError { pos, .. } => pos.offset(),
        Error::CustomErrorPos { pos, .. } => pos.offset(),
        Error::CustomErrorSpan { span, .. } => span.spec_start(),
    }
}

/// The underline row's content for the record at a column offset `off`:
/// `off` spaces, then a caret-to-caret bar as wide as a span of width
/// greater than one, or a single caret for a narrower span, or the fixed
/// point marker `"^---"` for the other shapes.
pub open spec fn underline_views<'i, R>(e: Error<'i, R>, off: nat) -> Seq<char> {
    spaces(off) + match e {
        Error::CustomErrorSpan { span, .. } => {
            if span.width() > 1 {
                seq!['^'] + dashes((span.width() - 2) as nat) + seq!['^']
            } else {
                seq!['^']
            }
        },
        _ => "^---"@,
    }
}

/// The boxed source-context report for the record, carrying message `msg`:
/// a `--> line:col` header, the source line in a line-numbered gutter, the
/// underline row, and the message, joined by newlines.
pub open spec fn report_views<'i, R>(e: Error<'i, R>, msg: Seq<char>) -> Seq<char> {
    let line = line_number_of(anchor_text(e), anchor_offset(e) as int);
    let col = column_of(anchor_text(e), anchor_offset(e) as int);
    let text = line_text_of(anchor_text(e), anchor_offset(e) as int);
    let g = spaces(dec_of(line as nat).len());
    g + "--> "@ + dec_of(line as nat) + ":"@ + dec_of(col as nat) + "\n"@ + g + " |\n"@ + dec_of(
        line as nat,
    ) + " | "@ + text + "\n"@ + g + " | "@ + underline_views(e, (col - 1) as nat) + "\n"@ + g
        + " |\n"@ + g + " = "@ + msg
}

/// Renders the underline row's content for the record: `offset` spaces,
/// then the span-width caret bar or the fixed `"^---"` point marker.
pub fn underline<'i, R>(error: &Error<'i, R>, offset: usize) -> (r: String)
    ensures
        r@ == underline_views(*error, offset as nat),
{
    let mut u = String::new();
    append_spaces(&mut u, offset);
    match error {
        Error::CustomErrorSpan { span, .. } => {
            let e = span.end();
            let s = span.start();
            if e - s > 1 {
                let w = e - s;
                u.append("^");
                proof {
                    reveal_strlit("^");
                    assert(u@ =~= spaces(offset as nat) + seq!['^'] + dashes(0));
                }
                let mut k: usize = 2;
                while k < w
                    invariant
                        2 <= k <= w,
                        u@ == spaces(offset as nat) + seq!['^'] + dashes((k - 2) as nat),
                    decreases w - k,
                {
                    u.append("-");
                    proof {
                        reveal_strlit("-");
                        assert(u@ =~= spaces(offset as nat) + seq!['^'] + dashes((k - 1) as nat));
                    }
                    k = k + 1;
                }
                u.append("^");
                proof {
                    reveal_strlit("^");
                    assert(u@ =~= underline_views(*error, offset as nat));
                }
            } else {
                u.append("^");
                proof {
                    reveal_strlit("^");
                    assert(u@ =~= underline_views(*error, offset as nat));
                }
            }
        },
        _ => {
            u.append("^---");
            proof {
                assert(u@ =~= underline_views(*error, offset as nat));
            }
        },
    }
    u
}

impl<'i, R> Error<'i, R> {
    /// The position a report is keyed to: the stored position, or the start
    /// boundary of the stored span.
    pub fn anchor_position(&self) -> (p: Position<'i>)
        ensures
            p.text() == anchor_text(*self),
            p.offset() == anchor_offset(*self),
    {
        match self {
            Error::ParsingError { pos, .. } => *pos,
            Error::CustomErrorPos { pos, .. } => *pos,
            Error::CustomErrorSpan { span, .. } => span.start_position(),
        }
    }

    /// A short description of the record: `"parsing error"` for a rule-set
    /// record, the stored message otherwise.
    pub fn description(&self) -> (r: &str)
        ensures
            match *self {
                Error::ParsingError { .. } => r@ == "parsing error"@,
                Error::CustomErrorPos { message, .. } => r@ == message@,
                Error::CustomErrorSpan { message, .. } => r@ == message@,
            },
    {
        match self {
            Error::ParsingError { .. } => "parsing error",
            Error::CustomErrorPos { message, .. } => message.as_str(),
            Error::CustomErrorSpan { message, .. } => message.as_str(),
        }
    }
}

/// `r` is what renaming `e` through `f` may yield: a rule-set record
/// becomes a positioned custom record at the same position whose message is
/// composed from some rendering of its rules; any other record is returned
/// unchanged.
pub open spec fn renamed_ok<'i, R, F: Fn(&R) -> String>(
    e: Error<'i, R>,
    f: F,
    r: Error<'i, R>,
) -> bool {
    match e {
        Error::ParsingError { positives, negatives, pos } => match r {
            Error::CustomErrorPos { message, pos: rpos } => {
                &&& rpos == pos
                &&& exists|ps: Seq<String>, ns: Seq<String>|
                    #![trigger renders_to(f, positives@, ps), renders_to(f, negatives@, ns)]
                    renders_to(f, positives@, ps) && renders_to(f, negatives@, ns) && message@
                        == parsing_error_message_views(str_views(ps), str_views(ns))
            },
            _ => false,
        },
        _ => r == e,
    }
}

impl<'i, R> Error<'i, R> {
    /// Renames all rules from a `ParsingError` record, returning a
    /// `CustomErrorPos` at the same position whose message is composed from
    /// the renamed rules. It does nothing when called on `CustomErrorPos`
    /// and `CustomErrorSpan` records.
    pub fn renamed_rules<F: Fn(&R) -> String>(self, f: F) -> (r: Error<'i, R>)
        requires
            match self {
                Error::ParsingError { positives, negatives, .. } => {
                    &&& forall|i: int|
                        #![trigger positives@[i]]
                        0 <= i < positives@.len() ==> call_requires(f, (&positives@[i],))
                    &&& forall|i: int|
                        #![trigger negatives@[i]]
                        0 <= i < negatives@.len() ==> call_requires(f, (&negatives@[i],))
                },
                _ => true,
            },
        ensures
            renamed_ok(self, f, r),
    {
        match self {
            Error::ParsingError { positives, negatives, pos } => {
                let message = parsing_error_message(&positives, &negatives, f);
                Error::CustomErrorPos { message, pos }
            },
            error => error,
        }
    }
}

impl<'i, R: core::fmt::Debug> Error<'i, R> {
    /// The record's message: the composed rule-set message, each rule
    /// rendered in its debug form, or the stored custom message.
    pub fn message(&self) -> (r: String)
        ensures
            is_message_of(*self, r@),
    {
        match self {
            Error::ParsingError { positives, negatives, .. } => {
                let rend = |x: &R| -> (s: String) { debug_render(x) };
                let m = parsing_error_message(positives, negatives, rend);
                proof {
                    let (ps, ns) = choose|ps: Seq<String>, ns: Seq<String>|
                        #![trigger renders_to(rend, positives@, ps), renders_to(rend, negatives@, ns)]
                        renders_to(rend, positives@, ps) && renders_to(rend, negatives@, ns) && m@
                            == parsing_error_message_views(str_views(ps), str_views(ns));
                    assert(str_views(ps).len() == positives@.len());
                    assert(str_views(ns).len() == negatives@.len());
                }
                m
            },
            Error::CustomErrorPos { message, .. } => message.clone(),
            Error::CustomErrorSpan { message, .. } => message.clone(),
        }
    }

    /// The canonical multi-line rendering of the record: the boxed
    /// source-context report of [`report_views`], with no trailing newline.
    pub fn to_display_text(&self) -> (r: String)
        ensures
            exists|msg: Seq<char>|
                #[trigger] is_message_of(*self, msg) && r@ == report_views(*self, msg),
    {
        let p = self.anchor_position();
        let lc = p.line_col();
        let line = lc.0;
        let col = lc.1;
        let line_str = dec_str(line as u64);
        let spacing = spaces_like(line_str.as_str());
        let mut s = String::new();
        s.append(spacing.as_str());
        s.append("--> ");
        s.append(line_str.as_str());
        s.append(":");
        let col_str = dec_str(col as u64);
        s.append(col_str.as_str());
        s.append("\n");
        s.append(spacing.as_str());
        s.append(" |\n");
        s.append(line_str.as_str());
        s.append(" | ");
        let lt = p.line_of();
        s.append(lt);
        s.append("\n");
        s.append(spacing.as_str());
        s.append(" | ");
        let ul = underline(self, col - 1);
        s.append(ul.as_str());
        s.append("\n");
        s.append(spacing.as_str());
        s.append(" |\n");
        s.append(spacing.as_str());
        s.append(" = ");
        let m = self.message();
        s.append(m.as_str());
        proof {
            assert(s@ =~= report_views(*self, m@));
        }
        s
    }
}

/// A single item is enumerated as itself, with no connective.
pub proof fn lemma_enumerate_single(items: Seq<Seq<char>>)
    requires
        items.len() == 1,
    ensures
        enumerate_views(items) == items[0],
{
}

/// Two items are enumerated as the first, a bare `" or "`, the second —
/// with no comma anywhere in the connective.
pub proof fn lemma_enumerate_pair(items: Seq<Seq<char>>)
    requires
        items.len() == 2,
    ensures
        enumerate_views(items) =~= items[0] + seq![' ', 'o', 'r', ' '] + items[1],
{
    reveal_strlit(" or ");
    assert(" or "@ =~= seq![' ', 'o', 'r', ' ']);
}

/// Three or more items are enumerated as the comma-joined prefix of all but
/// the last, then `", or "`, then the last item.
pub proof fn lemma_enumerate_many(items: Seq<Seq<char>>)
    requires
        items.len() >= 3,
    ensures
        enumerate_views(items) =~= join_sep(items.take(items.len() - 1), seq![',', ' '])
            + seq![',', ' ', 'o', 'r', ' '] + items.last(),
{
    reveal_strlit(", ");
    reveal_strlit(", or ");
    assert(", "@ =~= seq![',', ' ']);
    assert(", or "@ =~= seq![',', ' ', 'o', 'r', ' ']);
}

/// For a span-shaped record over a span of width `w > 1` the underline body
/// after its leading spaces is exactly `w` characters: a caret, `w - 2`
/// dashes, and a caret.
pub proof fn lemma_underline_span<'i, R>(message: String, span: Span<'i>, off: nat)
    requires
        span.width() > 1,
    ensures
        ({
            let e: Error<'i, R> = (Error::CustomErrorSpan { message, span });
            let u = underline_views(e, off);
            &&& u.len() == off + span.width()
            &&& u.skip(off as int) =~= seq!['^'] + dashes((span.width() - 2) as nat) + seq!['^']
        }),
{
    let e: Error<'i, R> = (Error::CustomErrorSpan { message, span });
    let u = underline_views(e, off);
    assert(u.skip(off as int) =~= seq!['^'] + dashes((span.width() - 2) as nat) + seq!['^']);
}

/// For a record that is not span-shaped the underline is its leading spaces
/// followed by exactly the fixed literal `"^---"`.
pub proof fn lemma_underline_point<'i, R>(e: Error<'i, R>, off: nat)
    requires
        !(e matches Error::CustomErrorSpan { .. }),
    ensures
        underline_views(e, off) =~= spaces(off) + seq!['^', '-', '-', '-'],
{
    reveal_strlit("^---");
    assert("^---"@ =~= seq!['^', '-', '-', '-']);
}

} // verus!
