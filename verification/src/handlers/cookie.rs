use vstd::prelude::*;
use vstd::string::*;
use crate::text::{chars_contain, contains_text, to_chars};

verus! {

/// A letter or a digit, as `char::is_alphanumeric` of the standard library
/// tells them.
pub uninterp spec fn is_letter_or_digit(c: char) -> bool;

/// The characters of a message that can belong to a cookie: letters,
/// digits and hyphens, in their order.
pub open spec fn cookie_chars(content: Seq<char>) -> Seq<char>
    decreases content.len(),
{
    if content.len() == 0 {
        content
    } else if is_letter_or_digit(content.last()) || content.last() == '-' {
        cookie_chars(content.drop_last()).push(content.last())
    } else {
        cookie_chars(content.drop_last())
    }
}

/// A message is answered with a warning and removed if it holds the
/// beginning of a cookie, however the cookie is broken up by spaces and
/// signs, unless it also holds the declaration by which its author says
/// that they know the risk. An empty declaration excuses nothing.
pub open spec fn cookie_warning_due(content: Seq<char>, declaration: Seq<char>) -> bool {
    !(declaration.len() > 0 && contains_text(content, declaration)) && contains_text(
        cookie_chars(content),
        "sk-ant-sid01"@,
    )
}

/// What is said to the author of a message that held a cookie: the advice,
/// and the declaration that excuses a message, between backticks.
pub open spec fn cookie_warning_text(declaration: Seq<char>) -> Seq<char> {
    "❌ 我们不建议在公屏发送 Cookie, 这可能会导致 Cookie 被滥用。请谨慎处理您的 Cookie 信息。\n建议使用 `/submit_cookie`(English)或`/提交曲奇`(中文)命令提交 Cookie 给公益站, 以确保安全和隐私。\n如果您确实需要在公屏发送 Cookie, 请确保您已经了解相关风险, 在你的消息中包含以下声明:\n`"@
        + declaration + "`"@
}

/// `char::is_alphanumeric` of the standard library: whether a character is
/// a letter or a digit. The contract only gives the answer a name.
#[verifier::external_body]
fn is_alphanumeric(c: char) -> (b: bool)
    ensures
        b == is_letter_or_digit(c),
{
    c.is_alphanumeric()
}

/// Whether a message in the open is warned about and removed.
pub fn is_cookie_warning_due(content: &str, declaration: &str) -> (due: bool)
    ensures
        due == cookie_warning_due(content@, declaration@),
{
    let chars = to_chars(content);
    let excuse = to_chars(declaration);
    if excuse.len() > 0 && chars_contain(&chars, &excuse) {
        return false;
    }
    let mut kept: Vec<char> = Vec::new();
    let mut i: usize = 0;
    proof {
        assert(chars@.subrange(0, 0) =~= Seq::<char>::empty());
    }
    while i < chars.len()
        invariant
            i <= chars.len(),
            kept@ == cookie_chars(chars@.subrange(0, i as int)),
        decreases chars.len() - i,
    {
        proof {
            assert(chars@.subrange(0, i + 1).drop_last() =~= chars@.subrange(0, i as int));
        }
        let c = chars[i];
        if is_alphanumeric(c) || c == '-' {
            kept.push(c);
        }
        i += 1;
    }
    proof {
        assert(chars@.subrange(0, chars@.len() as int) =~= chars@);
    }
    let pattern = to_chars("sk-ant-sid01");
    chars_contain(&kept, &pattern)
}

/// The warning for the author of a message that held a cookie.
pub fn cookie_warning(declaration: &str) -> (text: String)
    ensures
        text@ == cookie_warning_text(declaration@),
{
    String::from_str(
        "❌ 我们不建议在公屏发送 Cookie, 这可能会导致 Cookie 被滥用。请谨慎处理您的 Cookie 信息。\n建议使用 `/submit_cookie`(English)或`/提交曲奇`(中文)命令提交 Cookie 给公益站, 以确保安全和隐私。\n如果您确实需要在公屏发送 Cookie, 请确保您已经了解相关风险, 在你的消息中包含以下声明:\n`",
    ).concat(declaration).concat("`")
}

} // verus!
