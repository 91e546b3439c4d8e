//! Message templates and their rendering.
//!
//! Each rich-text reply is a fixed template with one substitution point: the
//! sender's display name. Rendering escapes the name for the rich-text
//! format and splices it between the template's two fixed halves. The help
//! reply has no substitution point and is a single fixed text.

use vstd::prelude::*;

use crate::escape::escape_markdown;
use crate::escape::escape_seq;

verus! {

/// A message template with one substitution point: the fixed text before the
/// substituted name and the fixed text after it.
pub struct Template {
    pub before: String,
    pub after: String,
}

/// The full template configuration the router works from: the static help
/// text, and one template each for the primary action, the authorized
/// farewell, and the refusal of an unauthorized farewell.
pub struct TemplateSet {
    pub help_text: String,
    pub primary: Template,
    pub farewell: Template,
    pub unauthorized: Template,
}

/// The text a template renders to for a given name: the name is escaped and
/// spliced between the template's fixed halves.
pub open spec fn rendered_spec(t: Template, name: Seq<char>) -> Seq<char> {
    t.before@ + escape_seq(name) + t.after@
}

/// Render a template for a display name, escaping the name so it cannot open
/// or close any rich-text markup.
pub fn render(t: &Template, name: &str) -> (r: String)
    ensures
        r@ == rendered_spec(*t, name@),
{
    let mut out = t.before.clone();
    let escaped = escape_markdown(name);
    out.append(escaped.as_str());
    out.append(t.after.as_str());
    out
}

/// The fixed template set this responder ships with: the help text listing
/// every command, the trading-card sign-up announcement, the farewell, and
/// the refusal shown to senders not allowed to use the farewell command.
pub fn default_templates() -> (t: TemplateSet)
    ensures
        t.help_text@ == "These commands are supported:\n/help - display this text.\n/etcg - apply for ETCG, totally legit.\n/goodbye - wish everyone farewell."@,
        t.primary.before@ == "Do you want to order your very own cards for the *ESTIEM Trading Card Game*? Then sign up by using [this form](https://docs.google.com/forms/d/e/1FAIpQLSdZFf_fOO7uaA8JKeDUwPCRo4e-S-RnPklU_syOGXCMPll9xA/viewform)\\!\n\nIf you have any questions, feel free to bother @erikviktor here or personally at CM\\.\n\n_This message was sent after actions made by "@,
        t.primary.after@ == "\\. If you receive it by a mistake, please submit a pull request [on GitHub](https://github.com/o1oo11oo/ETCGBot)\\._"@,
        t.farewell.before@ == "Time to leave again\\.\n\nThank you everyone for using the ETCGBot, and have fun with the *ESTIEM Trading Card Game*\\!\n\n_This message was sent after actions made by "@,
        t.farewell.after@ == "\\. If you receive it by a mistake, please submit a pull request [on GitHub](https://github.com/o1oo11oo/ETCGBot)\\._"@,
        t.unauthorized.before@ == "Sorry, you are not allowed to use this command\\!\n\n_This message was sent after actions made by "@,
        t.unauthorized.after@ == "\\. If you receive it by a mistake, please submit a pull request [on GitHub](https://github.com/o1oo11oo/ETCGBot)\\._"@,
{
    TemplateSet {
        help_text: String::from_str(
            "These commands are supported:\n/help - display this text.\n/etcg - apply for ETCG, totally legit.\n/goodbye - wish everyone farewell.",
        ),
        primary: Template {
            before: String::from_str(
                "Do you want to order your very own cards for the *ESTIEM Trading Card Game*? Then sign up by using [this form](https://docs.google.com/forms/d/e/1FAIpQLSdZFf_fOO7uaA8JKeDUwPCRo4e-S-RnPklU_syOGXCMPll9xA/viewform)\\!\n\nIf you have any questions, feel free to bother @erikviktor here or personally at CM\\.\n\n_This message was sent after actions made by ",
            ),
            after: String::from_str(
                "\\. If you receive it by a mistake, please submit a pull request [on GitHub](https://github.com/o1oo11oo/ETCGBot)\\._",
            ),
        },
        farewell: Template {
            before: String::from_str(
                "Time to leave again\\.\n\nThank you everyone for using the ETCGBot, and have fun with the *ESTIEM Trading Card Game*\\!\n\n_This message was sent after actions made by ",
            ),
            after: String::from_str(
                "\\. If you receive it by a mistake, please submit a pull request [on GitHub](https://github.com/o1oo11oo/ETCGBot)\\._",
            ),
        },
        unauthorized: Template {
            before: String::from_str(
                "Sorry, you are not allowed to use this command\\!\n\n_This message was sent after actions made by ",
            ),
            after: String::from_str(
                "\\. If you receive it by a mistake, please submit a pull request [on GitHub](https://github.com/o1oo11oo/ETCGBot)\\._",
            ),
        },
    }
}

} // verus!
