//! Slash commands and their completion.

use vstd::prelude::*;

use crate::text::{
    contains_char, in_order, joined, owned, precedes_or_equals, starts_with, trimmed,
};

verus! {

/// A command that the agent itself understands, without the leading slash.
#[derive(Debug, PartialEq, Eq)]
pub struct AgentCommand {
    pub name: String,
    pub description: String,
}

/// The slash commands that exist besides those of the client: the built-in ones
/// of the agent and the recipes of the user.
#[derive(Debug, PartialEq, Eq)]
pub struct CommandCatalog {
    pub agent_commands: Vec<AgentCommand>,
    pub recipes: Vec<String>,
}

/// A completion: the command, with its slash, and what it does.
pub type CompletionModel = (Seq<char>, Seq<char>);

/// The model of a [`CommandCatalog`].
#[verifier::ext_equal]
pub struct CatalogModel {
    pub agent_commands: Seq<(Seq<char>, Seq<char>)>,
    pub recipes: Seq<Seq<char>>,
}

impl DeepView for AgentCommand {
    type V = (Seq<char>, Seq<char>);

    open spec fn deep_view(&self) -> (Seq<char>, Seq<char>) {
        (self.name@, self.description@)
    }
}

impl DeepView for CommandCatalog {
    type V = CatalogModel;

    open spec fn deep_view(&self) -> CatalogModel {
        CatalogModel {
            agent_commands: self.agent_commands.deep_view(),
            recipes: self.recipes.deep_view(),
        }
    }
}

/// The commands that the client handles itself.
pub open spec fn tui_commands() -> Seq<CompletionModel> {
    seq![
        ("/ext"@, "list and toggle extensions"@),
        ("/model"@, "switch model"@),
        ("/exit"@, "exit goose"@),
    ]
}

/// A built-in command of the agent, with its slash.
pub open spec fn agent_completion(command: (Seq<char>, Seq<char>)) -> CompletionModel {
    ("/"@ + command.0, command.1)
}

/// A recipe. It may be configured with or without its slash.
pub open spec fn recipe_completion(command: Seq<char>) -> CompletionModel {
    (if command.len() > 0 && command[0] == '/' { command } else { "/"@ + command }, "recipe"@)
}

/// All slash commands, in the order in which they are looked up.
pub open spec fn all_commands(catalog: CatalogModel) -> Seq<CompletionModel> {
    tui_commands() + Seq::new(
        catalog.agent_commands.len(),
        |i: int| agent_completion(catalog.agent_commands[i]),
    ) + Seq::new(catalog.recipes.len(), |i: int| recipe_completion(catalog.recipes[i]))
}

/// `x` put into `sorted` behind everything that does not come after it.
pub open spec fn inserted(sorted: Seq<CompletionModel>, x: CompletionModel) -> Seq<CompletionModel>
    decreases sorted.len(),
{
    if sorted.len() == 0 || precedes_or_equals(sorted.last().0, x.0) {
        sorted.push(x)
    } else {
        inserted(sorted.drop_last(), x).push(sorted.last())
    }
}

/// The completions in the order of their commands. Equal commands keep their
/// order.
pub open spec fn sorted_by_command(s: Seq<CompletionModel>) -> Seq<CompletionModel>
    decreases s.len(),
{
    if s.len() == 0 {
        s
    } else {
        inserted(sorted_by_command(s.drop_last()), s.last())
    }
}

/// Whether `input`, already trimmed, is the beginning of a slash command: it
/// starts with a slash and holds no space.
pub open spec fn is_slash_word(input: Seq<char>) -> bool {
    input.len() > 0 && input[0] == '/' && !input.contains(' ')
}

/// The completions of `input`: the commands that begin with it, sorted.
pub open spec fn completions(input: Seq<char>, catalog: CatalogModel) -> Seq<CompletionModel> {
    let word = trimmed(input);
    if is_slash_word(word) {
        sorted_by_command(
            all_commands(catalog).filter(|c: CompletionModel| word.is_prefix_of(c.0)),
        )
    } else {
        Seq::empty()
    }
}

/// Picks the completions with the command `command`.
pub open spec fn has_command(command: Seq<char>) -> spec_fn(CompletionModel) -> bool {
    |c: CompletionModel| c.0 == command
}

/// The completions with the command `command`.
pub open spec fn with_command(s: Seq<CompletionModel>, command: Seq<char>) -> Seq<CompletionModel> {
    s.filter(has_command(command))
}

/// All slash commands, in the order in which they are looked up.
fn list_commands(catalog: &CommandCatalog) -> (res: Vec<(String, String)>)
    ensures
        res.deep_view() == all_commands(catalog.deep_view()),
{
    let mut res: Vec<(String, String)> = Vec::new();
    res.push((owned("/ext"), owned("list and toggle extensions")));
    res.push((owned("/model"), owned("switch model")));
    res.push((owned("/exit"), owned("exit goose")));
    let ghost model = catalog.deep_view();
    let ghost agents = Seq::new(
        model.agent_commands.len(),
        |j: int| agent_completion(model.agent_commands[j]),
    );
    let ghost recipes = Seq::new(
        model.recipes.len(),
        |j: int| recipe_completion(model.recipes[j]),
    );
    assert(res.deep_view() =~= tui_commands() + agents.take(0));
    let mut i: usize = 0;
    while i < catalog.agent_commands.len()
        invariant
            i <= catalog.agent_commands.len(),
            model == catalog.deep_view(),
            agents.len() == catalog.agent_commands.len(),
            forall|j: int|
                0 <= j < agents.len() ==> agents[j] == agent_completion(model.agent_commands[j]),
            res.deep_view() =~= tui_commands() + agents.take(i as int),
        decreases catalog.agent_commands.len() - i,
    {
        let command: &AgentCommand = &catalog.agent_commands[i];
        let ghost before = res.deep_view();
        res.push((joined("/", command.name.as_str()), command.description.clone()));
        assert(model.agent_commands[i as int] == command.deep_view());
        assert(res.deep_view() =~= before.push(agents[i as int]));
        assert(agents.take(i + 1) =~= agents.take(i as int).push(agents[i as int]));
        i += 1;
    }
    assert(agents.take(i as int) =~= agents);
    assert(res.deep_view() =~= tui_commands() + agents + recipes.take(0));
    let mut k: usize = 0;
    while k < catalog.recipes.len()
        invariant
            k <= catalog.recipes.len(),
            model == catalog.deep_view(),
            recipes.len() == catalog.recipes.len(),
            forall|j: int|
                0 <= j < recipes.len() ==> recipes[j] == recipe_completion(model.recipes[j]),
            res.deep_view() =~= tui_commands() + agents + recipes.take(k as int),
        decreases catalog.recipes.len() - k,
    {
        let command: &String = &catalog.recipes[k];
        let ghost before = res.deep_view();
        proof {
            reveal_strlit("/");
        }
        let full: String = if starts_with(command.as_str(), "/") {
            assert("/"@[0] == '/');
            assert(command@[0] == command@.subrange(0, 1)[0]);
            command.clone()
        } else {
            assert(command@.len() > 0 && command@[0] == '/' ==> "/"@ =~= command@.subrange(0, 1));
            joined("/", command.as_str())
        };
        res.push((full, owned("recipe")));
        assert(model.recipes[k as int] == command@);
        assert(res.deep_view() =~= before.push(recipes[k as int]));
        assert(recipes.take(k + 1) =~= recipes.take(k as int).push(recipes[k as int]));
        k += 1;
    }
    assert(recipes.take(k as int) =~= recipes);
    res
}

/// Puts a completion into a sorted list.
fn insert_sorted(sorted: &mut Vec<(String, String)>, x: (String, String))
    ensures
        final(sorted).deep_view() == inserted(old(sorted).deep_view(), x.deep_view()),
{
    let ghost all = sorted.deep_view();
    let ghost item = x.deep_view();
    let mut at: usize = sorted.len();
    assert(all.take(at as int) =~= all);
    assert(inserted(all, item) =~= inserted(all.take(at as int), item) + all.skip(at as int));
    while at > 0 && !in_order(sorted[at - 1].0.as_str(), x.0.as_str())
        invariant
            at <= sorted.len(),
            all == sorted.deep_view(),
            item == x.deep_view(),
            inserted(all, item) == inserted(all.take(at as int), item) + all.skip(at as int),
        decreases at,
    {
        let ghost head = all.take(at as int);
        assert(head.last() == sorted[at - 1].deep_view());
        assert(head.drop_last() =~= all.take(at - 1));
        assert(inserted(all.take(at - 1), item).push(head.last()) + all.skip(at as int)
            =~= inserted(all.take(at - 1), item) + all.skip(at - 1));
        at -= 1;
    }
    let ghost head = all.take(at as int);
    assert(at > 0 ==> head.last() == sorted[at - 1].deep_view());
    assert(inserted(head, item) == head.push(item));
    sorted.insert(at, x);
    assert(sorted.deep_view() =~= head.push(item) + all.skip(at as int));
}

/// The completions of `input`: the commands that begin with it, sorted by
/// command. There are none unless the input, without surrounding white space,
/// starts with a slash and holds no space.
pub fn slash_completions(input: &str, catalog: &CommandCatalog) -> (res: Vec<(String, String)>)
    ensures
        res.deep_view() == completions(input@, catalog.deep_view()),
{
    let word: &str = input.trim();
    proof {
        reveal_strlit("/");
    }
    let slash: bool = starts_with(word, "/");
    assert(slash == (word@.len() > 0 && word@[0] == '/')) by {
        if slash {
            assert(word@[0] == word@.subrange(0, 1)[0]);
        } else if word@.len() > 0 && word@[0] == '/' {
            assert("/"@ =~= word@.subrange(0, 1));
        }
    }
    let mut res: Vec<(String, String)> = Vec::new();
    assert(res.deep_view() =~= Seq::<CompletionModel>::empty());
    if !slash || contains_char(word, ' ') {
        return res;
    }
    let commands: Vec<(String, String)> = list_commands(catalog);
    let ghost all = commands.deep_view();
    let ghost keep = |c: CompletionModel| word@.is_prefix_of(c.0);
    let mut i: usize = 0;
    assert(all.take(0).filter(keep) =~= Seq::<CompletionModel>::empty());
    while i < commands.len()
        invariant
            i <= commands.len(),
            all == commands.deep_view(),
            keep == (|c: CompletionModel| word@.is_prefix_of(c.0)),
            res.deep_view() == sorted_by_command(all.take(i as int).filter(keep)),
        decreases commands.len() - i,
    {
        let command: &(String, String) = &commands[i];
        let ghost kept = all.take(i as int).filter(keep);
        proof {
            all.take(i as int).lemma_filter_push(command.deep_view(), keep);
            assert(all.take(i + 1) =~= all.take(i as int).push(command.deep_view()));
        }
        if starts_with(command.0.as_str(), word) {
            assert(kept.push(command.deep_view()).drop_last() =~= kept);
            let copy: (String, String) = (command.0.clone(), command.1.clone());
            assert(copy.deep_view() == command.deep_view());
            insert_sorted(&mut res, copy);
        }
        i += 1;
    }
    assert(all.take(i as int) =~= all);
    res
}

} // verus!
