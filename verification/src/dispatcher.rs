//! The event dispatcher: maps discrete UI events (menu selection, tray
//! click) to supervisor and window actions, without state of its own beyond
//! the identifiers of the menu items it recognizes.

use vstd::prelude::*;

verus! {

/// The commands a menu item can be bound to.
#[derive(Debug, Clone, Copy, PartialEq, Eq, Structural)]
pub enum MenuCommand {
    /// Stop the worker, then exit the host.
    Quit,
    /// Bring the host's main window to the front.
    Show,
}

/// A request the dispatcher hands back to the host.
#[derive(Debug, Clone, Copy, PartialEq, Eq, Structural)]
pub enum Action {
    /// Stop the worker process (best-effort; the result is discarded).
    StopWorker,
    /// Exit the host process with the given code.
    ExitHost(i32),
    /// Make the main window visible.
    ShowWindow,
    /// Give the main window input focus.
    FocusWindow,
}

/// Maps menu-item identifiers to commands; the mapping is data, looked up by
/// identifier, not a chain of branches.
pub struct Dispatcher {
    bindings: Vec<(String, MenuCommand)>,
}

impl View for Dispatcher {
    type V = Seq<(Seq<char>, MenuCommand)>;

    closed spec fn view(&self) -> Seq<(Seq<char>, MenuCommand)> {
        self.bindings@.map_values(|b: (String, MenuCommand)| (b.0@, b.1))
    }
}

/// The first command bound to `id`, if any.
pub open spec fn command_of(bindings: Seq<(Seq<char>, MenuCommand)>, id: Seq<char>) -> Option<
    MenuCommand,
>
    decreases bindings.len(),
{
    if bindings.len() == 0 {
        None
    } else if bindings[0].0 == id {
        Some(bindings[0].1)
    } else {
        command_of(bindings.drop_first(), id)
    }
}

/// The actions a command expands to. On quit, the worker-stop request comes
/// strictly before the host-exit request.
pub open spec fn actions_for(c: MenuCommand) -> Seq<Action> {
    match c {
        MenuCommand::Quit => seq![Action::StopWorker, Action::ExitHost(0)],
        MenuCommand::Show => seq![Action::ShowWindow],
    }
}

/// What a menu event dispatches to: the actions of the bound command, or
/// nothing for an unrecognized identifier.
pub open spec fn spec_dispatch_menu(bindings: Seq<(Seq<char>, MenuCommand)>, id: Seq<char>) -> Seq<
    Action,
> {
    match command_of(bindings, id) {
        Some(c) => actions_for(c),
        None => Seq::empty(),
    }
}

/// Looking up an identifier that none of the first `i` bindings carries is
/// the same as looking it up among the rest.
proof fn lemma_command_of_skip(bindings: Seq<(Seq<char>, MenuCommand)>, id: Seq<char>, i: int)
    requires
        0 <= i <= bindings.len(),
        forall|j: int| 0 <= j < i ==> bindings[j].0 != id,
    ensures
        command_of(bindings, id) == command_of(bindings.skip(i), id),
    decreases i,
{
    if i > 0 {
        lemma_command_of_skip(bindings.drop_first(), id, i - 1);
        assert(bindings.drop_first().skip(i - 1) =~= bindings.skip(i));
    } else {
        assert(bindings.skip(0) =~= bindings);
    }
}

/// In `acts`, every host-exit request is preceded by a worker-stop request.
pub open spec fn stop_precedes_exit(acts: Seq<Action>) -> bool {
    forall|j: int|
        0 <= j < acts.len() && (#[trigger] acts[j]) is ExitHost ==> exists|i: int|
            0 <= i < j && (#[trigger] acts[i]) is StopWorker
}

/// Whatever the bindings and whatever the event, a dispatched action
/// sequence never asks the host to exit before it has asked for the worker
/// to be stopped — the worker-stop request always comes first on the quit
/// path, and the stop's own result cannot reorder it.
pub proof fn lemma_stop_precedes_exit(bindings: Seq<(Seq<char>, MenuCommand)>, id: Seq<char>)
    ensures
        stop_precedes_exit(spec_dispatch_menu(bindings, id)),
{
    let acts = spec_dispatch_menu(bindings, id);
    match command_of(bindings, id) {
        Some(MenuCommand::Quit) => {
            assert forall|j: int|
                0 <= j < acts.len() && (#[trigger] acts[j]) is ExitHost implies exists|i: int|
                0 <= i < j && (#[trigger] acts[i]) is StopWorker by {
                assert(acts[0] is StopWorker);
                assert(j == 1);
            }
        },
        Some(MenuCommand::Show) => {
            assert(acts.len() == 1);
            assert(!(acts[0] is ExitHost));
        },
        None => {
        },
    }
}

/// A show command involves the supervisor and the host lifetime not at all:
/// it expands to window actions only.
pub proof fn lemma_show_touches_window_only()
    ensures
        forall|k: int|
            0 <= k < actions_for(MenuCommand::Show).len() ==> (#[trigger] actions_for(
                MenuCommand::Show,
            )[k]) is ShowWindow,
{
    assert(actions_for(MenuCommand::Show)[0] is ShowWindow);
}

impl Dispatcher {
    /// A dispatcher that recognizes the given quit and show menu items.
    pub fn new(quit_id: String, show_id: String) -> (d: Self)
        ensures
            d@ =~= seq![(quit_id@, MenuCommand::Quit), (show_id@, MenuCommand::Show)],
    {
        let mut bindings: Vec<(String, MenuCommand)> = Vec::new();
        bindings.push((quit_id, MenuCommand::Quit));
        bindings.push((show_id, MenuCommand::Show));
        Dispatcher { bindings }
    }

    /// Dispatches a menu event: the actions of the command bound to `id`,
    /// or no actions at all for an identifier the dispatcher does not
    /// recognize. There is no error path.
    pub fn dispatch_menu(&self, id: &String) -> (acts: Vec<Action>)
        ensures
            acts@ == spec_dispatch_menu(self@, id@),
    {
        let ghost bs = self@;
        let n = self.bindings.len();
        let mut i: usize = 0;
        while i < n
            invariant
                n == self.bindings.len(),
                bs == self@,
                0 <= i <= n,
                forall|j: int| 0 <= j < i ==> bs[j].0 != id@,
            decreases n - i,
        {
            if self.bindings[i].0 == *id {
                proof {
                    lemma_command_of_skip(bs, id@, i as int);
                    assert(bs.skip(i as int)[0] == bs[i as int]);
                }
                return Self::actions_of(self.bindings[i].1);
            }
            i += 1;
        }
        proof {
            lemma_command_of_skip(bs, id@, n as int);
            assert(bs.skip(n as int) =~= Seq::<(Seq<char>, MenuCommand)>::empty());
        }
        Vec::new()
    }

    /// The executable form of [`actions_for`].
    fn actions_of(c: MenuCommand) -> (acts: Vec<Action>)
        ensures
            acts@ == actions_for(c),
    {
        let mut acts: Vec<Action> = Vec::new();
        match c {
            MenuCommand::Quit => {
                acts.push(Action::StopWorker);
                acts.push(Action::ExitHost(0));
                proof {
                    assert(acts@ =~= actions_for(MenuCommand::Quit));
                }
            },
            MenuCommand::Show => {
                acts.push(Action::ShowWindow);
                proof {
                    assert(acts@ =~= actions_for(MenuCommand::Show));
                }
            },
        }
        acts
    }

    /// Dispatches a tray-icon event: a primary (left-button) click asks for
    /// the main window to be shown and focused; any other tray event is
    /// ignored.
    pub fn dispatch_tray_click(primary: bool) -> (acts: Vec<Action>)
        ensures
            primary ==> acts@ =~= seq![Action::ShowWindow, Action::FocusWindow],
            !primary ==> acts@ =~= Seq::<Action>::empty(),
    {
        let mut acts: Vec<Action> = Vec::new();
        if primary {
            acts.push(Action::ShowWindow);
            acts.push(Action::FocusWindow);
        }
        acts
    }
}

} // verus!
