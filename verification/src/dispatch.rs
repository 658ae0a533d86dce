//! The outcome of one dispatch decision.
//!
//! For each record the engine yields a [`Dispatch`]: an optional echo line
//! to print first, and the one [`Action`] to perform — nothing, one HTTP
//! post, or one process invocation.  Argument-list templating for the
//! process path lives here as well: the call target is tokenized at spaces,
//! and the payload either replaces the first `{}` token or is appended as
//! the final argument.

use vstd::prelude::*;
use vstd::string::*;

use crate::text::{
    join_spaces, spec_join_spaces, spec_split_spaces, spec_starts_with, split_spaces,
};

verus! {

/// The one delivery action chosen for a record.
pub enum Action {
    /// Deliver nothing: the record was filtered out, or the recursion guard
    /// suppressed an HTTP post.
    Skip,
    /// Post `body` to `url` with content type `application/json`.
    Post { url: String, body: String },
    /// Spawn `argv[0]` with the remaining entries as arguments; when
    /// `capture_file` is set, wait, capture standard output and write it
    /// over that file.
    Spawn { argv: Vec<String>, capture_file: Option<String> },
}

/// The mathematical content of an [`Action`].
#[verifier::ext_equal]
pub ghost enum ActionModel {
    Skip,
    Post { url: Seq<char>, body: Seq<char> },
    Spawn { argv: Seq<Seq<char>>, capture_file: Option<Seq<char>> },
}

impl View for Action {
    type V = ActionModel;

    open spec fn view(&self) -> ActionModel {
        match self {
            Action::Skip => ActionModel::Skip,
            Action::Post { url, body } => ActionModel::Post { url: url@, body: body@ },
            Action::Spawn { argv, capture_file } => ActionModel::Spawn {
                argv: argv.deep_view(),
                capture_file: capture_file.deep_view(),
            },
        }
    }
}

/// One dispatch decision: what to print first, and what to deliver.
pub struct Dispatch {
    /// The diagnostic line to print before delivering, when echo is set.
    pub echo_line: Option<String>,
    /// The delivery action.
    pub action: Action,
}

/// The mathematical content of a [`Dispatch`].
#[verifier::ext_equal]
pub ghost struct DispatchModel {
    pub echo_line: Option<Seq<char>>,
    pub action: ActionModel,
}

impl View for Dispatch {
    type V = DispatchModel;

    open spec fn view(&self) -> DispatchModel {
        DispatchModel { echo_line: self.echo_line.deep_view(), action: self.action@ }
    }
}

/// The placeholder token that marks where the payload goes.
pub open spec fn spec_placeholder() -> Seq<char> {
    "{}"@
}

/// A call target of this shape is posted to instead of spawned.
pub open spec fn spec_is_url(s: Seq<char>) -> bool {
    spec_starts_with(s, "http://"@) || spec_starts_with(s, "https://"@)
}

/// A record coming from the HTTP client's own internals: posting it would
/// let the client's logging re-enter this sink without end, so its dispatch
/// is suppressed.
pub open spec fn spec_http_guarded(module: Option<Seq<char>>) -> bool {
    match module {
        Some(m) => spec_starts_with(m, "ureq::"@) || spec_starts_with(m, "rustls::"@),
        None => false,
    }
}

/// The echo line printed before an HTTP post: the target and the payload.
pub open spec fn spec_http_echo_line(target: Seq<char>, payload: Seq<char>) -> Seq<char> {
    "Calling: `"@ + target + "\n\t"@ + payload + "`"@
}

/// The echo line printed before a process invocation: the argument list
/// joined with spaces.
pub open spec fn spec_spawn_echo_line(argv: Seq<Seq<char>>) -> Seq<char> {
    "Calling: `"@ + spec_join_spaces(argv) + "`"@
}

/// Builds the echo line for an HTTP post.
pub fn http_echo_line(target: &str, payload: &str) -> (r: String)
    ensures
        r@ == spec_http_echo_line(target@, payload@),
{
    let mut line = String::new();
    line.append("Calling: `");
    line.append(target);
    line.append("\n\t");
    line.append(payload);
    line.append("`");
    proof {
        assert(line@ =~= spec_http_echo_line(target@, payload@));
    }
    line
}

/// Builds the echo line for a process invocation.
pub fn spawn_echo_line(argv: &Vec<String>) -> (r: String)
    ensures
        r@ == spec_spawn_echo_line(argv.deep_view()),
{
    let mut line = String::new();
    line.append("Calling: `");
    let joined = join_spaces(argv);
    line.append(joined.as_str());
    line.append("`");
    proof {
        assert(line@ =~= spec_spawn_echo_line(argv.deep_view()));
    }
    line
}

/// The payload substituted into the token list: it replaces the first
/// placeholder token, or stands as one extra final token when no placeholder
/// occurs.
pub open spec fn spec_subst(toks: Seq<Seq<char>>, payload: Seq<char>) -> Seq<Seq<char>>
    decreases toks.len(),
{
    if toks.len() == 0 {
        seq![payload]
    } else if toks[0] == spec_placeholder() {
        seq![payload] + toks.drop_first()
    } else {
        seq![toks[0]] + spec_subst(toks.drop_first(), payload)
    }
}

/// The argument list for the process path: the call target tokenized at
/// spaces, with the payload substituted.
pub open spec fn spec_argv(target: Seq<char>, payload: Seq<char>) -> Seq<Seq<char>> {
    spec_subst(spec_split_spaces(target), payload)
}

/// Substitution into a list without placeholder tokens appends the payload.
proof fn lemma_subst_no_placeholder(toks: Seq<Seq<char>>, payload: Seq<char>)
    requires
        forall|j: int| 0 <= j < toks.len() ==> toks[j] != spec_placeholder(),
    ensures
        spec_subst(toks, payload) == toks.push(payload),
    decreases toks.len(),
{
    if toks.len() == 0 {
        assert(spec_subst(toks, payload) =~~= toks.push(payload));
    } else {
        lemma_subst_no_placeholder(toks.drop_first(), payload);
        assert(spec_subst(toks, payload) =~~= toks.push(payload));
    }
}

/// Substitution replaces exactly the first placeholder token.
proof fn lemma_subst_at(toks: Seq<Seq<char>>, payload: Seq<char>, i: int)
    requires
        0 <= i < toks.len(),
        toks[i] == spec_placeholder(),
        forall|j: int| 0 <= j < i ==> toks[j] != spec_placeholder(),
    ensures
        spec_subst(toks, payload) == toks.update(i, payload),
    decreases i,
{
    if i == 0 {
        assert(spec_subst(toks, payload) =~~= toks.update(0, payload));
    } else {
        lemma_subst_at(toks.drop_first(), payload, i - 1);
        assert(toks.drop_first().update(i - 1, payload) =~= toks.update(i, payload).drop_first());
        assert(spec_subst(toks, payload) =~~= toks.update(i, payload));
    }
}

/// Substitution always keeps the payload: one token of the result is the
/// payload itself.
proof fn lemma_subst_carries(toks: Seq<Seq<char>>, payload: Seq<char>)
    ensures
        spec_subst(toks, payload).contains(payload),
    decreases toks.len(),
{
    if toks.len() == 0 {
        assert(spec_subst(toks, payload)[0] == payload);
    } else if toks[0] == spec_placeholder() {
        assert(spec_subst(toks, payload)[0] == payload);
    } else {
        lemma_subst_carries(toks.drop_first(), payload);
        let rest = spec_subst(toks.drop_first(), payload);
        let i = choose|i: int| 0 <= i < rest.len() && rest[i] == payload;
        assert(spec_subst(toks, payload)[i + 1] == payload);
    }
}

/// The payload always appears in the built argument list: at the first
/// placeholder token when the call target holds one, and as the final
/// argument otherwise.
pub proof fn lemma_argv_carries_payload(target: Seq<char>, payload: Seq<char>)
    ensures
        spec_argv(target, payload).contains(payload),
{
    lemma_subst_carries(spec_split_spaces(target), payload);
}

/// Builds the argument list for the process path, executably.
pub fn build_argv(call_target: &str, payload: &str) -> (r: Vec<String>)
    ensures
        r.deep_view() == spec_argv(call_target@, payload@),
{
    let mut toks = split_spaces(call_target);
    let n = toks.len();
    let mut i: usize = 0;
    while i < n
        invariant
            n == toks.len(),
            toks.deep_view() == spec_split_spaces(call_target@),
            0 <= i <= n,
            forall|j: int| 0 <= j < i ==> toks.deep_view()[j] != spec_placeholder(),
        decreases n - i,
    {
        let is_placeholder = {
            let t = &toks[i];
            t.as_str().unicode_len() == 2 && t.as_str().get_char(0) == '{'
                && t.as_str().get_char(1) == '}'
        };
        proof {
            reveal_strlit("{}");
            assert(toks@[i as int].deep_view() == toks.deep_view()[i as int]);
            if is_placeholder {
                assert(toks.deep_view()[i as int] =~= spec_placeholder());
            } else {
                assert(toks.deep_view()[i as int] != spec_placeholder());
            }
        }
        if is_placeholder {
            let ghost old_toks = toks.deep_view();
            toks.set(i, payload.to_owned());
            proof {
                lemma_subst_at(old_toks, payload@, i as int);
                assert(toks.deep_view() =~~= old_toks.update(i as int, payload@));
            }
            return toks;
        }
        i += 1;
    }
    proof {
        lemma_subst_no_placeholder(toks.deep_view(), payload@);
    }
    let ghost old_toks = toks.deep_view();
    toks.push(payload.to_owned());
    proof {
        assert(toks.deep_view() =~~= old_toks.push(payload@));
    }
    toks
}

} // verus!
