//! What holds of the completions of a prompt, whatever commands there are.

use vstd::arithmetic::div_mod::lemma_small_mod;
use vstd::prelude::*;

use crate::completion::{
    all_commands, completions, has_command, inserted, is_slash_word, sorted_by_command,
    with_command, CatalogModel, CompletionModel,
};
use crate::prompt::{PromptCommand, PromptModel};
use crate::text::{
    lemma_order_antisymmetric, lemma_order_total, lemma_order_transitive,
    lemma_trimmed_idempotent, precedes_or_equals, trimmed,
};
use crate::text_laws::{differs_at, law_how_texts_are_ordered};

verus! {

/// Whether the commands come in the order of code points.
pub open spec fn is_sorted(s: Seq<CompletionModel>) -> bool {
    forall|i: int, j: int|
        #![trigger s[i], s[j]]
        0 <= i <= j < s.len() ==> precedes_or_equals(s[i].0, s[j].0)
}

proof fn lemma_order_reflexive(a: Seq<char>)
    ensures
        precedes_or_equals(a, a),
{
    lemma_order_total(a, a);
}

proof fn lemma_inserted_multiset(s: Seq<CompletionModel>, x: CompletionModel)
    ensures
        inserted(s, x).to_multiset() == s.to_multiset().insert(x),
    decreases s.len(),
{
    broadcast use vstd::seq_lib::group_to_multiset_ensures;

    if s.len() > 0 && !precedes_or_equals(s.last().0, x.0) {
        lemma_inserted_multiset(s.drop_last(), x);
        assert(s.drop_last().push(s.last()) =~= s);
        assert(s.drop_last().to_multiset().insert(x).insert(s.last())
            =~= s.drop_last().to_multiset().insert(s.last()).insert(x));
    }
}

proof fn lemma_inserted_sorted(s: Seq<CompletionModel>, x: CompletionModel)
    requires
        is_sorted(s),
    ensures
        is_sorted(inserted(s, x)),
    decreases s.len(),
{
    let out = inserted(s, x);
    if s.len() == 0 || precedes_or_equals(s.last().0, x.0) {
        assert forall|i: int, j: int|
            #![trigger out[i], out[j]]
            0 <= i <= j < out.len() implies precedes_or_equals(out[i].0, out[j].0) by {
            if j == s.len() {
                if i < s.len() {
                    assert(precedes_or_equals(s[i].0, s[s.len() - 1].0));
                    lemma_order_transitive(s[i].0, s.last().0, x.0);
                } else {
                    lemma_order_reflexive(x.0);
                }
            } else {
                assert(precedes_or_equals(s[i].0, s[j].0));
            }
        }
    } else {
        let head = s.drop_last();
        let rest = inserted(head, x);
        assert(is_sorted(head)) by {
            assert forall|i: int, j: int|
                #![trigger head[i], head[j]]
                0 <= i <= j < head.len() implies precedes_or_equals(head[i].0, head[j].0) by {
                assert(precedes_or_equals(s[i].0, s[j].0));
            }
        }
        lemma_inserted_sorted(head, x);
        lemma_inserted_multiset(head, x);
        lemma_order_total(s.last().0, x.0);
        assert forall|i: int, j: int|
            #![trigger out[i], out[j]]
            0 <= i <= j < out.len() implies precedes_or_equals(out[i].0, out[j].0) by {
            if j < rest.len() {
                assert(precedes_or_equals(rest[i].0, rest[j].0));
            } else if i == j {
                lemma_order_reflexive(s.last().0);
            } else {
                broadcast use vstd::seq_lib::group_to_multiset_ensures;

                assert(rest.contains(rest[i]));
                assert(rest.to_multiset().count(rest[i]) > 0);
                if rest[i] != x {
                    assert(head.to_multiset().count(rest[i]) > 0);
                    assert(head.contains(rest[i]));
                    let k = head.index_of(rest[i]);
                    assert(precedes_or_equals(s[k].0, s[s.len() - 1].0));
                }
            }
        }
    }
}

proof fn lemma_sorted_by_command(s: Seq<CompletionModel>)
    ensures
        is_sorted(sorted_by_command(s)),
        sorted_by_command(s).to_multiset() == s.to_multiset(),
    decreases s.len(),
{
    if s.len() > 0 {
        broadcast use vstd::seq_lib::group_to_multiset_ensures;

        let head = s.drop_last();
        lemma_sorted_by_command(head);
        lemma_inserted_sorted(sorted_by_command(head), s.last());
        lemma_inserted_multiset(sorted_by_command(head), s.last());
        assert(head.push(s.last()) =~= s);
    }
}

proof fn lemma_sorted_contains(s: Seq<CompletionModel>, c: CompletionModel)
    ensures
        sorted_by_command(s).contains(c) == s.contains(c),
{
    broadcast use vstd::seq_lib::group_to_multiset_ensures;

    lemma_sorted_by_command(s);
    assert(s.contains(c) == (s.to_multiset().count(c) > 0));
    assert(sorted_by_command(s).contains(c) == (sorted_by_command(s).to_multiset().count(c) > 0));
}

proof fn lemma_with_command_push(s: Seq<CompletionModel>, x: CompletionModel, command: Seq<char>)
    ensures
        with_command(s.push(x), command) == if x.0 == command {
            with_command(s, command).push(x)
        } else {
            with_command(s, command)
        },
{
    s.lemma_filter_push(x, has_command(command));
}

proof fn lemma_inserted_stable(s: Seq<CompletionModel>, x: CompletionModel, command: Seq<char>)
    requires
        is_sorted(s),
    ensures
        with_command(inserted(s, x), command) == with_command(s.push(x), command),
    decreases s.len(),
{
    if s.len() > 0 && !precedes_or_equals(s.last().0, x.0) {
        let head = s.drop_last();
        assert(is_sorted(head)) by {
            assert forall|i: int, j: int|
                #![trigger head[i], head[j]]
                0 <= i <= j < head.len() implies precedes_or_equals(head[i].0, head[j].0) by {
                assert(precedes_or_equals(s[i].0, s[j].0));
            }
        }
        lemma_inserted_stable(head, x, command);
        lemma_with_command_push(inserted(head, x), s.last(), command);
        lemma_with_command_push(head, x, command);
        lemma_with_command_push(head, s.last(), command);
        lemma_with_command_push(s, x, command);
        assert(head.push(s.last()) =~= s);
        if x.0 == s.last().0 {
            lemma_order_reflexive(x.0);
        }
    }
}

proof fn lemma_sorted_stable(s: Seq<CompletionModel>, command: Seq<char>)
    ensures
        with_command(sorted_by_command(s), command) == with_command(s, command),
    decreases s.len(),
{
    if s.len() > 0 {
        let head = s.drop_last();
        lemma_sorted_stable(head, command);
        lemma_sorted_by_command(head);
        lemma_inserted_stable(sorted_by_command(head), s.last(), command);
        lemma_with_command_push(sorted_by_command(head), s.last(), command);
        lemma_with_command_push(head, s.last(), command);
        assert(head.push(s.last()) =~= s);
    }
}

proof fn lemma_with_command_of_filter(
    s: Seq<CompletionModel>,
    keep: spec_fn(CompletionModel) -> bool,
    command: Seq<char>,
)
    requires
        forall|c: CompletionModel| c.0 == command ==> #[trigger] keep(c),
    ensures
        with_command(s.filter(keep), command) == with_command(s, command),
    decreases s.len(),
{
    if s.len() > 0 {
        let head = s.drop_last();
        lemma_with_command_of_filter(head, keep, command);
        head.lemma_filter_push(s.last(), keep);
        assert(head.push(s.last()) =~= s);
        lemma_with_command_push(head, s.last(), command);
        lemma_with_command_push(head.filter(keep), s.last(), command);
    } else {
        reveal(Seq::filter);
        assert(s.filter(keep) =~= s);
    }
}

/// A prompt has completions only while it is the beginning of a slash command:
/// without surrounding white space it starts with a slash and holds no space.
pub proof fn law_only_slash_words_complete(input: Seq<char>, catalog: CatalogModel)
    ensures
        completions(input, catalog).len() > 0 ==> is_slash_word(trimmed(input)),
{
}

/// The completions of the beginning of a slash command are exactly the commands that
/// begin with it, each as often as it is there.
pub proof fn law_completions_are_the_matching_commands(
    input: Seq<char>,
    catalog: CatalogModel,
    c: CompletionModel,
)
    requires
        is_slash_word(trimmed(input)),
    ensures
        completions(input, catalog).to_multiset() == all_commands(catalog).filter(
            |d: CompletionModel| trimmed(input).is_prefix_of(d.0),
        ).to_multiset(),
        completions(input, catalog).contains(c) <==> all_commands(catalog).contains(c)
            && trimmed(input).is_prefix_of(c.0),
{
    let all = all_commands(catalog);
    let keep = |d: CompletionModel| trimmed(input).is_prefix_of(d.0);
    let kept = all.filter(keep);
    assert(completions(input, catalog) == sorted_by_command(kept));
    lemma_sorted_by_command(kept);
    lemma_sorted_contains(kept, c);
    if kept.contains(c) {
        all.lemma_filter_contains_rev(keep, c);
        let i = kept.index_of(c);
        all.lemma_filter_pred(keep, i);
    }
    if all.contains(c) && keep(c) {
        let i = all.index_of(c);
        all.lemma_filter_contains(keep, i);
    }
}

/// The commands there are: those of the client, then those of the agent with a slash
/// in front and their descriptions, then the recipes, which get a slash where they have
/// none.
pub proof fn law_which_commands_there_are(catalog: CatalogModel, i: int)
    ensures
        ({
            let all = all_commands(catalog);
            let agents = catalog.agent_commands.len();
            &&& all.len() == 3 + agents + catalog.recipes.len()
            &&& all[0] == ("/ext"@, "list and toggle extensions"@)
            &&& all[1] == ("/model"@, "switch model"@)
            &&& all[2] == ("/exit"@, "exit goose"@)
            &&& 0 <= i < agents ==> all[3 + i] == (
                seq!['/'] + catalog.agent_commands[i].0,
                catalog.agent_commands[i].1,
            )
            &&& 0 <= i < catalog.recipes.len() ==> {
                let recipe = catalog.recipes[i];
                all[3 + agents + i] == if recipe.len() > 0 && recipe[0] == '/' {
                    (recipe, "recipe"@)
                } else {
                    (seq!['/'] + recipe, "recipe"@)
                }
            }
        }),
{
    reveal_strlit("/");
    assert("/"@ =~= seq!['/']);
}

/// A prompt that, without surrounding white space, starts with a slash and holds no
/// space is completed to exactly the commands that begin with it. Any other prompt has
/// no completions.
pub proof fn law_what_a_prompt_is_completed_to(
    input: Seq<char>,
    catalog: CatalogModel,
    c: CompletionModel,
)
    ensures
        ({
            let word = trimmed(input);
            let found = completions(input, catalog);
            if word.len() > 0 && word[0] == '/' && forall|j: int|
                0 <= j < word.len() ==> #[trigger] word[j] != ' ' {
                &&& found.contains(c) <==> all_commands(catalog).contains(c)
                    && word.is_prefix_of(c.0)
                &&& found.to_multiset() == all_commands(catalog).filter(
                    |d: CompletionModel| trimmed(input).is_prefix_of(d.0),
                ).to_multiset()
            } else {
                found.len() == 0
            }
        }),
{
    let word = trimmed(input);
    if forall|j: int| 0 <= j < word.len() ==> #[trigger] word[j] != ' ' {
        if word.len() > 0 && word[0] == '/' {
            assert(is_slash_word(word));
            law_completions_are_the_matching_commands(input, catalog, c);
        }
    } else {
        let j = choose|j: int| 0 <= j < word.len() && #[trigger] word[j] == ' ';
        assert(word.contains(word[j]));
    }
}

/// The completions come in the order of their commands: an earlier one is a beginning
/// of a later one, or has the smaller character where they first differ.
pub proof fn law_in_which_order_completions_come(
    input: Seq<char>,
    catalog: CatalogModel,
    i: int,
    j: int,
)
    requires
        0 <= i < j < completions(input, catalog).len(),
    ensures
        ({
            let a = completions(input, catalog)[i].0;
            let b = completions(input, catalog)[j].0;
            a.is_prefix_of(b) || exists|k: int| differs_at(a, b, k)
        }),
{
    law_completions_are_sorted(input, catalog);
    let found = completions(input, catalog);
    assert(precedes_or_equals(found[i].0, found[j].0));
    law_how_texts_are_ordered(found[i].0, found[j].0);
}

/// The completions come in the order of their commands.
pub proof fn law_completions_are_sorted(input: Seq<char>, catalog: CatalogModel)
    ensures
        is_sorted(completions(input, catalog)),
{
    let keep = |d: CompletionModel| trimmed(input).is_prefix_of(d.0);
    lemma_sorted_by_command(all_commands(catalog).filter(keep));
}

/// Where several completions have one command, those of the client come first, then
/// those of the agent, then the recipes, each in the order in which they are listed.
pub proof fn law_equal_commands_keep_their_order(
    input: Seq<char>,
    catalog: CatalogModel,
    command: Seq<char>,
)
    requires
        is_slash_word(trimmed(input)),
        trimmed(input).is_prefix_of(command),
    ensures
        with_command(completions(input, catalog), command) == with_command(
            all_commands(catalog),
            command,
        ),
{
    let keep = |d: CompletionModel| trimmed(input).is_prefix_of(d.0);
    lemma_sorted_stable(all_commands(catalog).filter(keep), command);
    lemma_with_command_of_filter(all_commands(catalog), keep, command);
}

/// Submitting takes what Tab would complete the input to, where the input has
/// completions; otherwise it takes the input without surrounding white space.
pub proof fn law_submitting_takes_the_selected_completion(
    prompt: PromptModel,
    catalog: CatalogModel,
)
    ensures
        prompt.completions(catalog).len() > 0 ==> prompt.submission(catalog) == prompt.performed(
            PromptCommand::Complete,
            catalog,
        ).input,
        prompt.completions(catalog).len() == 0 ==> prompt.submission(catalog) == trimmed(
            prompt.input,
        ),
{
    lemma_trimmed_idempotent(prompt.input);
}

/// Whatever the input is completed to was a command that begins with it.
pub proof fn law_completing_extends_the_input(prompt: PromptModel, catalog: CatalogModel)
    requires
        prompt.completions(catalog).len() > 0,
    ensures
        trimmed(prompt.input).is_prefix_of(
            prompt.performed(PromptCommand::Complete, catalog).input,
        ),
        exists|c: CompletionModel|
            #![trigger all_commands(catalog).contains(c)]
            all_commands(catalog).contains(c) && c.0 == prompt.performed(
                PromptCommand::Complete,
                catalog,
            ).input,
{
    let found = prompt.completions(catalog);
    let at = prompt.completion_idx as int % found.len() as int;
    assert(found.contains(found[at]));
    law_completions_are_the_matching_commands(prompt.input, catalog, found[at]);
}

proof fn lemma_prefix_precedes(a: Seq<char>, b: Seq<char>)
    requires
        a.is_prefix_of(b),
    ensures
        precedes_or_equals(a, b),
    decreases a.len(),
{
    if a.len() > 0 {
        assert(a[0] == b.subrange(0, a.len() as int)[0]);
        assert(a.drop_first() =~= b.drop_first().subrange(0, a.len() - 1));
        lemma_prefix_precedes(a.drop_first(), b.drop_first());
    }
}

/// In a sorted list of commands that do not come before `command`, those that are
/// equal to it come first.
proof fn lemma_equal_commands_come_first(s: Seq<CompletionModel>, command: Seq<char>, i: int)
    requires
        is_sorted(s),
        forall|j: int| 0 <= j < s.len() ==> precedes_or_equals(command, #[trigger] s[j].0),
        0 <= i < s.len(),
    ensures
        s[i].0 == command <==> i < with_command(s, command).len(),
    decreases s.len(),
{
    let head = s.drop_last();
    assert(head.push(s.last()) =~= s);
    assert(is_sorted(head)) by {
        assert forall|i: int, j: int|
            #![trigger head[i], head[j]]
            0 <= i <= j < head.len() implies precedes_or_equals(head[i].0, head[j].0) by {
            assert(precedes_or_equals(s[i].0, s[j].0));
        }
    }
    lemma_with_command_push(head, s.last(), command);
    head.lemma_filter_len(has_command(command));
    assert forall|j: int| 0 <= j < head.len() implies precedes_or_equals(
        command,
        #[trigger] head[j].0,
    ) by {
        assert(precedes_or_equals(command, s[j].0));
    }
    if i < s.len() - 1 {
        lemma_equal_commands_come_first(head, command, i);
    }
    if s.last().0 == command {
        assert(precedes_or_equals(s[i].0, s[s.len() - 1].0));
        assert(precedes_or_equals(command, s[i].0));
        lemma_order_antisymmetric(command, s[i].0);
        if head.len() > 0 {
            assert(precedes_or_equals(s[s.len() - 2].0, s[s.len() - 1].0));
            assert(precedes_or_equals(command, s[s.len() - 2].0));
            lemma_order_antisymmetric(command, s[s.len() - 2].0);
            lemma_equal_commands_come_first(head, command, head.len() - 1);
        }
    }
}

/// An item that a filter keeps comes behind those that it keeps before it.
proof fn lemma_kept_at(s: Seq<CompletionModel>, p: spec_fn(CompletionModel) -> bool, at: int)
    requires
        0 <= at < s.len(),
        p(s[at]),
    ensures
        s.take(at).filter(p).len() < s.filter(p).len(),
        s.filter(p)[s.take(at).filter(p).len() as int] == s[at],
{
    let head = s.take(at);
    head.lemma_filter_push(s[at], p);
    Seq::filter_distributes_over_add(head.push(s[at]), s.skip(at + 1), p);
    assert(head.push(s[at]) + s.skip(at + 1) =~= s);
}

/// Among sorted commands that do not come before `command`, those that are equal to
/// it are the first ones, in their order.
proof fn lemma_equal_commands_are_the_first(s: Seq<CompletionModel>, command: Seq<char>, i: int)
    requires
        is_sorted(s),
        forall|j: int| 0 <= j < s.len() ==> precedes_or_equals(command, #[trigger] s[j].0),
        0 <= i < with_command(s, command).len(),
    ensures
        i < s.len(),
        s[i] == with_command(s, command)[i],
{
    s.lemma_filter_len(has_command(command));
    let head = s.take(i);
    assert forall|j: int| 0 <= j < i implies #[trigger] has_command(command)(head[j]) by {
        lemma_equal_commands_come_first(s, command, j);
    }
    lemma_all_kept(head, has_command(command));
    lemma_equal_commands_come_first(s, command, i);
    lemma_kept_at(s, has_command(command), i);
}

proof fn lemma_all_kept(s: Seq<CompletionModel>, p: spec_fn(CompletionModel) -> bool)
    requires
        forall|j: int| 0 <= j < s.len() ==> #[trigger] p(s[j]),
    ensures
        s.filter(p) == s,
    decreases s.len(),
{
    reveal(Seq::filter);
    if s.len() > 0 {
        assert forall|j: int| 0 <= j < s.len() - 1 implies #[trigger] p(s.drop_last()[j]) by {
            assert(p(s[j]));
        }
        lemma_all_kept(s.drop_last(), p);
        assert(p(s[s.len() - 1]));
        assert(s.drop_last().push(s.last()) =~= s);
    }
}

/// After the input was completed to a command without white space, the very
/// completion that was selected before is selected still. So the command is what Tab
/// and Enter take next.
pub proof fn law_completing_keeps_the_selection(prompt: PromptModel, catalog: CatalogModel)
    requires
        0 < prompt.completions(catalog).len() <= usize::MAX,
        ({
            let command = prompt.selected_completion(prompt.input, catalog);
            trimmed(command) == command && !command.contains(' ')
        }),
    ensures
        ({
            let before = prompt.completions(catalog);
            let completed = prompt.performed(PromptCommand::Complete, catalog);
            let after = completed.completions(catalog);
            &&& completed.input == prompt.selected_completion(prompt.input, catalog)
            &&& after.len() > 0
            &&& after[completed.completion_idx as int % after.len() as int]
                == before[prompt.completion_idx as int % before.len() as int]
            &&& completed.selected_completion(completed.input, catalog) == completed.input
            &&& completed.submission(catalog) == completed.input
        }),
{
    let command = prompt.selected_completion(prompt.input, catalog);
    let found = prompt.completions(catalog);
    let at = prompt.completion_idx as int % found.len() as int;
    assert(found.contains(found[at]));
    law_completions_are_the_matching_commands(prompt.input, catalog, found[at]);
    let word = trimmed(prompt.input);
    assert(command[0] == command.subrange(0, word.len() as int)[0]);
    assert(is_slash_word(command));
    assert(command.is_prefix_of(command)) by {
        assert(command.subrange(0, command.len() as int) =~= command);
    }
    let again = completions(command, catalog);
    law_completions_are_sorted(command, catalog);
    assert forall|j: int| 0 <= j < again.len() implies precedes_or_equals(
        command,
        #[trigger] again[j].0,
    ) by {
        assert(again.contains(again[j]));
        law_completions_are_the_matching_commands(command, catalog, again[j]);
        lemma_prefix_precedes(command, again[j].0);
    }
    law_equal_commands_keep_their_order(prompt.input, catalog, command);
    law_equal_commands_keep_their_order(command, catalog, command);
    let p = has_command(command);
    lemma_kept_at(found, p, at);
    let k = found.take(at).filter(p).len() as int;
    found.take(at).lemma_filter_len(p);
    assert(with_command(again, command) == with_command(found, command));
    lemma_equal_commands_are_the_first(again, command, k);
    lemma_small_mod(k as nat, again.len());
    lemma_trimmed_idempotent(command);
}

proof fn lemma_inserted_filter(
    s: Seq<CompletionModel>,
    x: CompletionModel,
    p: spec_fn(CompletionModel) -> bool,
)
    requires
        is_sorted(s),
    ensures
        inserted(s, x).filter(p) == if p(x) {
            inserted(s.filter(p), x)
        } else {
            s.filter(p)
        },
    decreases s.len(),
{
    if s.len() == 0 || precedes_or_equals(s.last().0, x.0) {
        s.lemma_filter_push(x, p);
        let kept = s.filter(p);
        if kept.len() > 0 {
            s.lemma_filter_contains_rev(p, kept.last());
            let i = s.index_of(kept.last());
            assert(precedes_or_equals(s[i].0, s[s.len() - 1].0));
            lemma_order_transitive(s[i].0, s.last().0, x.0);
        }
    } else {
        let head = s.drop_last();
        assert(is_sorted(head)) by {
            assert forall|i: int, j: int|
                #![trigger head[i], head[j]]
                0 <= i <= j < head.len() implies precedes_or_equals(head[i].0, head[j].0) by {
                assert(precedes_or_equals(s[i].0, s[j].0));
            }
        }
        lemma_inserted_filter(head, x, p);
        head.lemma_filter_push(s.last(), p);
        inserted(head, x).lemma_filter_push(s.last(), p);
        assert(head.push(s.last()) =~= s);
        let kept = head.filter(p).push(s.last());
        assert(kept.drop_last() =~= head.filter(p));
    }
}

proof fn lemma_sorted_filter(s: Seq<CompletionModel>, p: spec_fn(CompletionModel) -> bool)
    ensures
        sorted_by_command(s).filter(p) == sorted_by_command(s.filter(p)),
    decreases s.len(),
{
    if s.len() > 0 {
        let head = s.drop_last();
        lemma_sorted_filter(head, p);
        lemma_sorted_by_command(head);
        lemma_inserted_filter(sorted_by_command(head), s.last(), p);
        head.lemma_filter_push(s.last(), p);
        assert(head.push(s.last()) =~= s);
        assert(head.filter(p).push(s.last()).drop_last() =~= head.filter(p));
    } else {
        reveal(Seq::filter);
    }
}

proof fn lemma_filter_twice(
    s: Seq<CompletionModel>,
    wide: spec_fn(CompletionModel) -> bool,
    narrow: spec_fn(CompletionModel) -> bool,
)
    requires
        forall|c: CompletionModel| #[trigger] narrow(c) ==> wide(c),
    ensures
        s.filter(wide).filter(narrow) == s.filter(narrow),
    decreases s.len(),
{
    if s.len() > 0 {
        let head = s.drop_last();
        lemma_filter_twice(head, wide, narrow);
        head.lemma_filter_push(s.last(), wide);
        head.lemma_filter_push(s.last(), narrow);
        head.filter(wide).lemma_filter_push(s.last(), narrow);
        assert(head.push(s.last()) =~= s);
        assert(narrow(s.last()) ==> wide(s.last()));
    } else {
        reveal(Seq::filter);
    }
}

/// Typing on narrows the completions down: where one slash word begins with another,
/// its completions are those of the other that begin with it, in the same order.
pub proof fn law_typing_on_narrows_the_completions(
    shorter: Seq<char>,
    longer: Seq<char>,
    catalog: CatalogModel,
)
    requires
        is_slash_word(trimmed(shorter)),
        is_slash_word(trimmed(longer)),
        trimmed(shorter).is_prefix_of(trimmed(longer)),
    ensures
        completions(longer, catalog) == completions(shorter, catalog).filter(
            |c: CompletionModel| trimmed(longer).is_prefix_of(c.0),
        ),
{
    let all = all_commands(catalog);
    let a = trimmed(shorter);
    let b = trimmed(longer);
    let wide = |c: CompletionModel| trimmed(shorter).is_prefix_of(c.0);
    let narrow = |c: CompletionModel| trimmed(longer).is_prefix_of(c.0);
    assert(completions(shorter, catalog) == sorted_by_command(all.filter(wide)));
    assert(completions(longer, catalog) == sorted_by_command(all.filter(narrow)));
    assert forall|c: CompletionModel| #[trigger] narrow(c) implies wide(c) by {
        assert(c.0.subrange(0, a.len() as int) =~= c.0.subrange(0, b.len() as int).subrange(
            0,
            a.len() as int,
        ));
    }
    lemma_filter_twice(all, wide, narrow);
    lemma_sorted_filter(all.filter(wide), narrow);
}

} // verus!
