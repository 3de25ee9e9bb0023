//! Reading a reply: the structured text inside its code fence, the document
//! that the text holds, and the directive that the document gives.

use crate::error::ParseError;
use crate::text::{
    framed, is_blank, is_trimmed, lemma_trimmed_frames, lemma_trimmed_is_middle, same_text,
    starts_with, strip_prefix, strip_suffix, trim_ascii, trimmed, without_prefix,
    without_suffix,
};
use vstd::prelude::*;
use vstd::string::StringExecFns;

verus! {

/// The opening fence with the long spelling of the language.
pub open spec fn yaml_fence() -> Seq<char> {
    "```yaml"@
}

/// The opening fence with the short spelling of the language.
pub open spec fn yml_fence() -> Seq<char> {
    "```yml"@
}

/// The closing fence.
pub open spec fn closing_fence() -> Seq<char> {
    "```"@
}

/// `text` without the opening fence that it begins with, in either
/// spelling; `text` itself where it begins with none. One fence is taken
/// off, not two.
pub open spec fn without_opening_fence(text: Seq<char>) -> Seq<char> {
    if yaml_fence().is_prefix_of(text) {
        text.skip(yaml_fence().len() as int)
    } else {
        without_prefix(text, yml_fence())
    }
}

/// `raw` without the whitespace around it, then without the opening fence
/// and without the closing fence, each only where it is there.
pub open spec fn unfenced(raw: Seq<char>) -> Seq<char> {
    without_suffix(without_opening_fence(trimmed(raw)), closing_fence())
}

/// The structured text inside a reply: the reply without surrounding
/// whitespace and without the code fence that may decorate it.
pub fn unfence<'a>(content: &'a str) -> (text: &'a str)
    ensures
        text@ == unfenced(content@),
{
    let content = trim_ascii(content);
    let content = if starts_with(content, "```yaml") {
        strip_prefix(content, "```yaml")
    } else {
        strip_prefix(content, "```yml")
    };
    strip_suffix(content, "```")
}

/// The two fences are looked for independently: text ends with the closing
/// fence after its opening fence is taken off exactly when it ended with it
/// before.
pub proof fn lemma_fences_are_independent(text: Seq<char>)
    ensures
        closing_fence().is_suffix_of(without_opening_fence(text)) <==> closing_fence().is_suffix_of(
            text,
        ),
{
    reveal_strlit("```yaml");
    reveal_strlit("```yml");
    reveal_strlit("```");
    let rest = without_opening_fence(text);
    let cut = text.len() - rest.len();
    if cut > 0 {
        assert(text.subrange(0, cut)[cut - 1] == 'l');
        if closing_fence().is_suffix_of(text) {
            if rest.len() < 3 {
                assert(text.subrange(text.len() - 3, text.len() as int)[2 - rest.len()] == '`');
            }
            assert(rest.subrange(rest.len() - 3, rest.len() as int) =~= text.subrange(
                text.len() - 3,
                text.len() as int,
            ));
        }
        if closing_fence().is_suffix_of(rest) {
            assert(rest.subrange(rest.len() - 3, rest.len() as int) =~= text.subrange(
                text.len() - 3,
                text.len() as int,
            ));
        }
    }
}

/// `text` bears no fence: it begins with neither opening fence and does not
/// end with the closing one.
pub open spec fn is_bare(text: Seq<char>) -> bool {
    &&& !yaml_fence().is_prefix_of(text)
    &&& !yml_fence().is_prefix_of(text)
    &&& !closing_fence().is_suffix_of(text)
}

/// Unfencing text that bears no fence only trims it, and unfencing what
/// that gives changes nothing more.
pub proof fn lemma_unfenced_of_bare(raw: Seq<char>)
    requires
        is_bare(trimmed(raw)),
    ensures
        unfenced(raw) == trimmed(raw),
        unfenced(unfenced(raw)) == unfenced(raw),
{
    crate::text::lemma_trimmed_is_trimmed(raw);
}

/// Text that is trimmed and bears no fence is its own unfenced text,
/// whatever whitespace stands around it.
pub proof fn lemma_unfenced_of_bare_body(lead: Seq<char>, body: Seq<char>, trail: Seq<char>)
    requires
        is_blank(lead),
        is_blank(trail),
        is_trimmed(body),
        is_bare(body),
    ensures
        unfenced(framed(lead, body, trail)) == body,
{
    lemma_trimmed_is_middle(lead, body, trail);
}

/// A fence in the short spelling is transparent: between an opening
/// ```` ```yml ```` and a closing fence, with any whitespace around the two,
/// the unfenced text is what stands between them, whatever that is.
pub proof fn lemma_unfenced_of_yml_fence(lead: Seq<char>, body: Seq<char>, trail: Seq<char>)
    requires
        is_blank(lead),
        is_blank(trail),
    ensures
        unfenced(framed(lead, yml_fence() + body + closing_fence(), trail)) == body,
{
    reveal_strlit("```yaml");
    reveal_strlit("```yml");
    reveal_strlit("```");
    let middle = yml_fence() + body + closing_fence();
    lemma_trimmed_is_middle(lead, middle, trail);
    if yaml_fence().is_prefix_of(middle) {
        assert(middle.subrange(0, 7)[4] == yaml_fence()[4]);
        assert(false);
    }
}

/// A fence in the long spelling is transparent: between an opening
/// ```` ```yaml ```` and a closing fence, with any whitespace around the
/// two, the unfenced text is what stands between them, whatever that is.
pub proof fn lemma_unfenced_of_yaml_fence(lead: Seq<char>, body: Seq<char>, trail: Seq<char>)
    requires
        is_blank(lead),
        is_blank(trail),
    ensures
        unfenced(framed(lead, yaml_fence() + body + closing_fence(), trail)) == body,
{
    reveal_strlit("```yaml");
    reveal_strlit("```");
    lemma_trimmed_is_middle(lead, yaml_fence() + body + closing_fence(), trail);
}

/// The document that a reply holds: what the model thought, and the command
/// it wants run.
#[derive(Debug, Clone, PartialEq, Eq)]
pub struct Response {
    pub thoughts: Vec<String>,
    pub run: String,
}

/// A `Response` with its texts as sequences of characters.
pub struct ResponseView {
    pub thoughts: Seq<Seq<char>>,
    pub run: Seq<char>,
}

impl View for Response {
    type V = ResponseView;

    open spec fn view(&self) -> ResponseView {
        ResponseView { thoughts: self.thoughts.deep_view(), run: self.run@ }
    }
}

/// What the model asks for: a command for the shell, or the end of the
/// loop. The command is never blank.
#[derive(Debug)]
pub struct Directive {
    reasoning: Vec<String>,
    command: String,
}

/// A `Directive` with its texts as sequences of characters.
pub struct DirectiveView {
    pub reasoning: Seq<Seq<char>>,
    pub command: Seq<char>,
}

/// The word by which the model ends the loop.
pub open spec fn stop_word() -> Seq<char> {
    "STOP"@
}

/// Whether `command` asks for the end of the loop: it is the stop word
/// once the whitespace around it is removed, letter for letter.
pub open spec fn asks_to_stop(command: Seq<char>) -> bool {
    trimmed(command) == stop_word()
}

/// Whether `command` is empty once the whitespace around it is removed.
pub open spec fn is_blank_command(command: Seq<char>) -> bool {
    trimmed(command).len() == 0
}

/// The cause given when a document names no command.
pub open spec fn blank_command_cause() -> Seq<char> {
    "the command is empty"@
}

/// The program and the arguments by which `command` is run.
pub open spec fn shell_invocation(command: Seq<char>) -> Seq<Seq<char>> {
    seq!["bash"@, "-c"@, command]
}

/// The directive that a document holds, or why it holds none.
pub open spec fn directive_of(response: ResponseView) -> Result<DirectiveView, Seq<char>> {
    if is_blank_command(response.run) {
        Err(blank_command_cause())
    } else {
        Ok(DirectiveView { reasoning: response.thoughts, command: response.run })
    }
}

impl View for Directive {
    type V = DirectiveView;

    closed spec fn view(&self) -> DirectiveView {
        DirectiveView { reasoning: self.reasoning.deep_view(), command: self.command@ }
    }
}

impl Directive {
    #[verifier::type_invariant]
    spec fn command_is_not_blank(&self) -> bool {
        !is_blank_command(self.command@)
    }

    /// The directive with this reasoning and command; an error where the
    /// command is blank.
    pub fn new(reasoning: Vec<String>, command: String) -> (made: Result<Directive, ParseError>)
        ensures
            match made {
                Ok(directive) => directive_of(
                    ResponseView { thoughts: reasoning.deep_view(), run: command@ },
                ) == Ok::<DirectiveView, Seq<char>>(directive@),
                Err(error) => directive_of(
                    ResponseView { thoughts: reasoning.deep_view(), run: command@ },
                ) == Err::<DirectiveView, Seq<char>>(error@),
            },
    {
        if trim_ascii(command.as_str()).unicode_len() == 0 {
            Err(ParseError { cause: String::from_str("the command is empty") })
        } else {
            Ok(Directive { reasoning, command })
        }
    }

    /// The directive that `response` holds; an error where its command is
    /// blank.
    pub fn from_response(response: Response) -> (made: Result<Directive, ParseError>)
        ensures
            match made {
                Ok(directive) => directive_of(response@) == Ok::<DirectiveView, Seq<char>>(
                    directive@,
                ),
                Err(error) => directive_of(response@) == Err::<DirectiveView, Seq<char>>(error@),
            },
    {
        Directive::new(response.thoughts, response.run)
    }

    /// What the model thought, in order.
    pub fn reasoning(&self) -> (reasoning: &Vec<String>)
        ensures
            reasoning.deep_view() == self@.reasoning,
    {
        &self.reasoning
    }

    /// The command, as the model wrote it.
    pub fn command(&self) -> (command: &str)
        ensures
            command@ == self@.command,
            !is_blank_command(command@),
    {
        proof {
            use_type_invariant(self);
        }
        self.command.as_str()
    }

    /// The program and the arguments by which the command is run: one shell,
    /// which gets the command whole, as its inline script.
    pub fn invocation(&self) -> (arguments: Vec<String>)
        ensures
            arguments.deep_view() == shell_invocation(self@.command),
    {
        let mut arguments: Vec<String> = Vec::new();
        arguments.push(String::from_str("bash"));
        arguments.push(String::from_str("-c"));
        arguments.push(self.command.clone());
        arguments
    }

    /// Whether this directive ends the loop.
    pub fn is_stop(&self) -> (stop: bool)
        ensures
            stop == asks_to_stop(self@.command),
    {
        is_stop_word(self.command.as_str())
    }
}

/// Whether `command` asks for the end of the loop.
pub fn is_stop_word(command: &str) -> (stop: bool)
    ensures
        stop == asks_to_stop(command@),
{
    same_text(trim_ascii(command), "STOP")
}

/// A command asks for the end of the loop exactly when it is the stop word
/// with nothing but whitespace before and after it: no other case of its
/// letters, and no other word beside it.
pub proof fn lemma_stop_is_exact(command: Seq<char>)
    ensures
        asks_to_stop(command) <==> exists|lead: Seq<char>, trail: Seq<char>|
            is_blank(lead) && is_blank(trail) && command == #[trigger] framed(
                lead,
                stop_word(),
                trail,
            ),
{
    reveal_strlit("STOP");
    if asks_to_stop(command) {
        lemma_trimmed_frames(command);
    }
    if exists|lead: Seq<char>, trail: Seq<char>|
        is_blank(lead) && is_blank(trail) && command == #[trigger] framed(
            lead,
            stop_word(),
            trail,
        ) {
        let (lead, trail): (Seq<char>, Seq<char>) = choose|lead: Seq<char>, trail: Seq<char>|
            is_blank(lead) && is_blank(trail) && command == #[trigger] framed(
                lead,
                stop_word(),
                trail,
            );
        lemma_trimmed_is_middle(lead, stop_word(), trail);
    }
}

/// A command that asks for the end of the loop is not blank, so a directive
/// can hold it.
pub proof fn lemma_stop_is_not_blank(command: Seq<char>)
    requires
        asks_to_stop(command),
    ensures
        !is_blank_command(command),
{
    reveal_strlit("STOP");
}

} // verus!
