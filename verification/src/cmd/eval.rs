//! `eval`: work out an arithmetic or boolean expression.

use crate::embed::{Embed, EmbedView, Reply, ReplyView};
use crate::notice::Notice;
use crate::options::{
    find_option, option_named, CommandInfo, CommandInfoView, CommandOptionType, OptionValue,
    ResolvedOption,
};
use crate::text::{chars_of, contains, contains_text, md_escaped, remove_md_characters};
use vstd::prelude::*;

verus! {

/// The command that evaluates an expression.
pub struct Eval;

/// The option that holds the expression.
pub const EXPRESSION_OPTION_NAME: &'static str = "expression";

/// Where the expression language is described.
pub const HELP_URL: &'static str = "https://github.com/ISibboI/evalexpr/blob/main/README.md";

/// Whether `c` is white space: one of the characters that Unicode gives the
/// property `White_Space`.
pub open spec fn is_white_space(c: char) -> bool {
    ||| '\u{9}' <= c <= '\u{d}'
    ||| c == ' '
    ||| c == '\u{85}'
    ||| c == '\u{a0}'
    ||| c == '\u{1680}'
    ||| '\u{2000}' <= c <= '\u{200a}'
    ||| c == '\u{2028}'
    ||| c == '\u{2029}'
    ||| c == '\u{202f}'
    ||| c == '\u{205f}'
    ||| c == '\u{3000}'
}

/// `s` without the white space it starts with.
pub open spec fn trim_start(s: Seq<char>) -> Seq<char>
    decreases s.len(),
{
    if s.len() > 0 && is_white_space(s[0]) {
        trim_start(s.drop_first())
    } else {
        s
    }
}

/// `s` without the white space it ends in.
pub open spec fn trim_end(s: Seq<char>) -> Seq<char>
    decreases s.len(),
{
    if s.len() > 0 && is_white_space(s.last()) {
        trim_end(s.drop_last())
    } else {
        s
    }
}

/// `s` without the white space around it.
pub open spec fn trimmed(s: Seq<char>) -> Seq<char> {
    trim_end(trim_start(s))
}

/// Whether `expr` asks for help instead of holding an expression.
pub open spec fn asks_help(expr: Seq<char>) -> bool {
    trimmed(expr) == seq!['h', 'e', 'l', 'p']
}

fn check_white_space(c: char) -> (r: bool)
    ensures
        r == is_white_space(c),
{
    ('\u{9}' <= c && c <= '\u{d}') || c == ' ' || c == '\u{85}' || c == '\u{a0}' || c
        == '\u{1680}' || ('\u{2000}' <= c && c <= '\u{200a}') || c == '\u{2028}' || c
        == '\u{2029}' || c == '\u{202f}' || c == '\u{205f}' || c == '\u{3000}'
}

proof fn lemma_trim_start(s: Seq<char>, k: int)
    requires
        0 <= k <= s.len(),
        forall|i: int| 0 <= i < k ==> is_white_space(#[trigger] s[i]),
        k < s.len() ==> !is_white_space(s[k]),
    ensures
        trim_start(s) == s.skip(k),
    decreases k,
{
    if k == 0 {
        assert(s.skip(0) == s);
    } else {
        let t = s.drop_first();
        assert forall|i: int| 0 <= i < k - 1 implies is_white_space(#[trigger] t[i]) by {
            assert(t[i] == s[i + 1]);
        }
        lemma_trim_start(t, k - 1);
        assert(t.skip(k - 1) == s.skip(k));
    }
}

proof fn lemma_trim_end(s: Seq<char>, k: int)
    requires
        0 <= k <= s.len(),
        forall|i: int| k <= i < s.len() ==> is_white_space(#[trigger] s[i]),
        k > 0 ==> !is_white_space(s[k - 1]),
    ensures
        trim_end(s) == s.take(k),
    decreases s.len() - k,
{
    if k == s.len() {
        assert(s.take(k) == s);
    } else {
        let t = s.drop_last();
        lemma_trim_end(t, k);
        assert(t.take(k) == s.take(k));
    }
}

/// The most characters of an expression that is evaluated. The evaluator
/// works its way into an expression by recursion, as deep as the expression
/// is nested, and an expression is never nested deeper than it is long.
pub const MAX_EXPRESSION_CHARS: usize = 256;

/// Whether `expr` is longer than what is evaluated.
pub open spec fn too_long(expr: Seq<char>) -> bool {
    expr.len() > MAX_EXPRESSION_CHARS
}

/// Whether `expr` names a function that the evaluator cannot be trusted
/// with: one that cuts a text at byte offsets, shifts bits by any amount, or
/// takes the absolute value of an integer. An expression is refused as soon
/// as one of these names occurs anywhere in it.
pub open spec fn refused(expr: Seq<char>) -> bool {
    ||| contains_text(expr, "str::substring"@)
    ||| contains_text(expr, "shl"@)
    ||| contains_text(expr, "shr"@)
    ||| contains_text(expr, "math::abs"@)
}

/// Calls `evalexpr::eval` and writes out the value, or the error, with the
/// crate's own `Display`. Nothing is claimed of the text that comes back:
/// the floating-point functions of the expression language are only as exact
/// as the machine makes them. The builtin functions `str::substring`, `shl`,
/// `shr` and `math::abs` can panic, and the evaluation recurses as deep as
/// the expression is nested, so an expression that names one of them, or is
/// longer than [`MAX_EXPRESSION_CHARS`], is kept out.
#[verifier::external_body]
fn evaluate(expr: &str) -> (r: String)
    requires
        !too_long(expr@),
        !refused(expr@),
{
    match evalexpr::eval(expr) {
        Ok(v) => format!("{}", v),
        Err(e) => format!("{}", e),
    }
}

/// The reply that shows `expr`, with markdown escaped, and its outcome.
pub open spec fn eval_reply(expr: Seq<char>, outcome: Seq<char>) -> ReplyView {
    ReplyView {
        embed: EmbedView {
            title: Some(md_escaped(expr)),
            description: Some(outcome),
            ..EmbedView::blank()
        },
        button: None,
    }
}

impl Eval {
    /// What the command is called.
    pub fn name() -> (r: &'static str)
        ensures
            r@ == "eval"@,
    {
        "eval"
    }

    /// How the command is declared.
    pub open spec fn declared() -> CommandInfoView {
        CommandInfoView::with_option(
            "eval"@,
            "Evaluate an expression"@,
            CommandOptionType::Text,
            EXPRESSION_OPTION_NAME@,
            "Expression to evaluate (use \"help\" to get a cheatsheet of available functions)"@,
            true,
        )
    }

    /// The declaration of the command.
    pub fn info() -> (r: CommandInfo)
        ensures
            r@ == Self::declared(),
    {
        CommandInfo::with_option(
            Eval::name(),
            "Evaluate an expression",
            CommandOptionType::Text,
            EXPRESSION_OPTION_NAME,
            "Expression to evaluate (use \"help\" to get a cheatsheet of available functions)",
            true,
        )
    }

    /// The expression to evaluate: the text of the first `expression`
    /// option.
    pub fn expression(options: &Vec<ResolvedOption>) -> (r: Result<String, Notice>)
        ensures
            match option_named(options@, EXPRESSION_OPTION_NAME@) {
                Some(OptionValue::Text(s)) => r is Ok && r->Ok_0@ == s@,
                Some(_) => r == Err::<String, Notice>(Notice::MalformedExpression),
                None => r == Err::<String, Notice>(Notice::NoExpression),
            },
    {
        match find_option(options, EXPRESSION_OPTION_NAME) {
            Some(OptionValue::Text(s)) => Ok(s.clone()),
            Some(_) => Err(Notice::MalformedExpression),
            None => Err(Notice::NoExpression),
        }
    }

    /// Whether `expr` is the word `help` with nothing but white space around
    /// it.
    pub fn is_help(expr: &str) -> (r: bool)
        ensures
            r == asks_help(expr@),
    {
        let chars = chars_of(expr);
        let mut start: usize = 0;
        while start < chars.len() && check_white_space(chars[start])
            invariant
                start <= chars.len(),
                forall|i: int| 0 <= i < start ==> is_white_space(#[trigger] chars@[i]),
            decreases chars.len() - start,
        {
            start = start + 1;
        }
        let mut end: usize = chars.len();
        while end > start && check_white_space(chars[end - 1])
            invariant
                start <= end <= chars.len(),
                forall|i: int| end <= i < chars.len() ==> is_white_space(#[trigger] chars@[i]),
            decreases end - start,
        {
            end = end - 1;
        }
        proof {
            let s = chars@;
            lemma_trim_start(s, start as int);
            let t = s.skip(start as int);
            assert forall|i: int| end - start <= i < t.len() implies is_white_space(
                #[trigger] t[i],
            ) by {
                assert(t[i] == s[i + start]);
            }
            if end > start {
                assert(t[end - start - 1] == s[end - 1]);
            }
            lemma_trim_end(t, end - start);
            assert(trimmed(s) == t.take(end - start));
            if end - start == 4 {
                assert(t.take(4)[0] == s[start as int]);
                assert(t.take(4)[1] == s[start + 1]);
                assert(t.take(4)[2] == s[start + 2]);
                assert(t.take(4)[3] == s[start + 3]);
                if s[start as int] == 'h' && s[start + 1] == 'e' && s[start + 2] == 'l' && s[start
                    + 3] == 'p' {
                    assert(t.take(4) =~= seq!['h', 'e', 'l', 'p']);
                }
            }
        }
        end - start == 4 && chars[start] == 'h' && chars[start + 1] == 'e' && chars[start + 2]
            == 'l' && chars[start + 3] == 'p'
    }

    /// Whether `expr` names a function that is not evaluated: see
    /// [`refused`].
    pub fn is_refused(expr: &str) -> (r: bool)
        ensures
            r == refused(expr@),
    {
        contains(expr, "str::substring") || contains(expr, "shl") || contains(expr, "shr")
            || contains(expr, "math::abs")
    }

    /// Whether `expr` is longer than what is evaluated: see [`too_long`].
    pub fn is_too_long(expr: &str) -> (r: bool)
        ensures
            r == too_long(expr@),
    {
        chars_of(expr).len() > MAX_EXPRESSION_CHARS
    }

    /// The outcome shown for `expr`: where to find help, if that is what
    /// `expr` asks for; a refusal, if `expr` is too long or names a function
    /// that is not evaluated; and otherwise what the evaluator makes of
    /// `expr`, be it a value or the reason why there is none.
    pub fn describe(expr: &str) -> (r: String)
        ensures
            asks_help(expr@) ==> r@ == HELP_URL@,
            !asks_help(expr@) && too_long(expr@) ==> r@ == Notice::ExpressionTooLong.text(),
            !asks_help(expr@) && !too_long(expr@) && refused(expr@) ==> r@
                == Notice::UnsupportedExpression.text(),
    {
        if Eval::is_help(expr) {
            String::from_str(HELP_URL)
        } else if Eval::is_too_long(expr) {
            Notice::ExpressionTooLong.message()
        } else if Eval::is_refused(expr) {
            Notice::UnsupportedExpression.message()
        } else {
            evaluate(expr)
        }
    }

    /// The reply that shows `expr` and the `outcome` found for it.
    pub fn reply(expr: &str, outcome: String) -> (r: Reply)
        ensures
            r@ == eval_reply(expr@, outcome@),
    {
        let mut embed = Embed::new();
        embed.title = Some(remove_md_characters(expr));
        embed.description = Some(outcome);
        Reply { embed, button: None }
    }

    /// Evaluates `expr` and shows the outcome: the expression as the title
    /// of the reply, and under it what [`Eval::describe`] gives.
    pub fn execute(expr: &str) -> (r: Reply)
        ensures
            asks_help(expr@) ==> r@ == eval_reply(expr@, HELP_URL@),
            !asks_help(expr@) && too_long(expr@) ==> r@ == eval_reply(
                expr@,
                Notice::ExpressionTooLong.text(),
            ),
            !asks_help(expr@) && !too_long(expr@) && refused(expr@) ==> r@ == eval_reply(
                expr@,
                Notice::UnsupportedExpression.text(),
            ),
            exists|outcome: Seq<char>| r@ == eval_reply(expr@, outcome),
    {
        let outcome = Eval::describe(expr);
        let ghost shown = outcome@;
        let r = Eval::reply(expr, outcome);
        proof {
            assert(r@ == eval_reply(expr@, shown));
        }
        r
    }
}

} // verus!
