//! The navigation state machine of the pager: which key asks for what, how
//! the displayed page moves in response, and when the screen is redrawn.

use vstd::prelude::*;
use crate::lines::LineBuffer;
use crate::paging::{last_page, lemma_start_of_reachable_page, page_len, page_of, page_start};

verus! {

/// A key press, reduced to what the pager tells apart.
#[derive(Clone, Copy, Debug, PartialEq, Eq, Structural)]
pub enum Key {
    /// The up arrow.
    Up,
    /// The down arrow.
    Down,
    /// A key that produces a character.
    Char(char),
    /// Any other key.
    Other,
}

/// What a key press asks the pager to do.
#[derive(Clone, Copy, Debug, PartialEq, Eq, Structural)]
pub enum Command {
    /// Show the next page.
    Advance,
    /// Show the previous page.
    Retreat,
    /// End the session.
    Quit,
    /// Nothing: the key has no meaning to the pager.
    Ignore,
}

/// The outcome of one bounded wait for terminal input.
#[derive(Clone, Copy, Debug, PartialEq, Eq, Structural)]
pub enum Event {
    /// A key was pressed.
    Key(Key),
    /// Something other than a key press arrived.
    Other,
    /// The wait ended with no input.
    Timeout,
}

/// What the caller does after the pager has seen an event.
#[derive(Clone, Copy, Debug, PartialEq, Eq, Structural)]
pub enum Action {
    /// Redraw the screen: the displayed page has changed.
    Render,
    /// Leave the screen as it is and wait for the next event.
    Wait,
    /// Leave the event loop and restore the terminal.
    Quit,
}

/// The key bindings: `q` quits, the down arrow and the space bar advance, the
/// up arrow retreats, and every other key is ignored.
pub open spec fn command_for(key: Key) -> Command {
    match key {
        Key::Char(c) => if c == 'q' {
            Command::Quit
        } else if c == ' ' {
            Command::Advance
        } else {
            Command::Ignore
        },
        Key::Down => Command::Advance,
        Key::Up => Command::Retreat,
        Key::Other => Command::Ignore,
    }
}

/// The command that an event carries: that of its key, and none for
/// anything that is not a key press.
pub open spec fn command_of(event: Event) -> Command {
    match event {
        Event::Key(key) => command_for(key),
        Event::Other => Command::Ignore,
        Event::Timeout => Command::Ignore,
    }
}

impl Key {
    /// Looks the key up in the key bindings.
    pub fn command(self) -> (command: Command)
        ensures
            command == command_for(self),
    {
        match self {
            Key::Char('q') => Command::Quit,
            Key::Down | Key::Char(' ') => Command::Advance,
            Key::Up => Command::Retreat,
            _ => Command::Ignore,
        }
    }
}

impl Event {
    /// The command that this event carries.
    pub fn command(self) -> (command: Command)
        ensures
            command == command_of(self),
    {
        match self {
            Event::Key(key) => key.command(),
            _ => Command::Ignore,
        }
    }
}

/// The pager's position as plain numbers.
pub struct PagerModel {
    /// Index of the page on display, counted from zero.
    pub current_page: nat,
    /// Lines per page.
    pub page_size: nat,
    /// Lines in the buffer.
    pub total_lines: nat,
}

impl PagerModel {
    /// A position is valid when pages hold at least one line and the page on
    /// display is one that navigation can reach.
    pub open spec fn wf(self) -> bool {
        &&& self.page_size > 0
        &&& self.current_page <= last_page(self.total_lines, self.page_size)
    }

    /// Whether a next page exists.
    pub open spec fn has_next(self) -> bool {
        self.current_page < last_page(self.total_lines, self.page_size)
    }

    /// Whether a previous page exists.
    pub open spec fn has_previous(self) -> bool {
        self.current_page > 0
    }

    /// The same buffer and page size, showing `page`.
    pub open spec fn at(self, page: nat) -> PagerModel {
        PagerModel { current_page: page, ..self }
    }

    /// The position after one command: one page forward if a next page
    /// exists, one page back if a previous page exists, and otherwise where
    /// it was.
    pub open spec fn apply(self, command: Command) -> PagerModel {
        match command {
            Command::Advance => if self.has_next() {
                self.at(self.current_page + 1)
            } else {
                self
            },
            Command::Retreat => if self.has_previous() {
                self.at((self.current_page - 1) as nat)
            } else {
                self
            },
            Command::Quit => self,
            Command::Ignore => self,
        }
    }

    /// What the caller is told to do after `command`: quit on request,
    /// redraw exactly when the page on display has changed, and wait
    /// otherwise.
    pub open spec fn action(self, command: Command) -> Action {
        if command == Command::Quit {
            Action::Quit
        } else if self.apply(command) != self {
            Action::Render
        } else {
            Action::Wait
        }
    }

    /// The position after a whole sequence of commands, applied in order.
    pub open spec fn apply_all(self, commands: Seq<Command>) -> PagerModel
        decreases commands.len(),
    {
        if commands.len() == 0 {
            self
        } else {
            self.apply_all(commands.drop_last()).apply(commands.last())
        }
    }

    /// Number of lines on the page on display.
    pub open spec fn shown_len(self) -> nat {
        page_len(self.total_lines, self.page_size, self.current_page)
    }
}

/// The pager's position: the page on display, the page size that the
/// terminal height gave, and the length of the buffer being shown.
#[derive(Clone, Copy, Debug)]
pub struct PagerState {
    current_page: usize,
    page_size: usize,
    total_lines: usize,
}

impl View for PagerState {
    type V = PagerModel;

    closed spec fn view(&self) -> PagerModel {
        PagerModel {
            current_page: self.current_page as nat,
            page_size: self.page_size as nat,
            total_lines: self.total_lines as nat,
        }
    }
}

/// Lines per page on a terminal of `height` rows: one row is held back so
/// that a full page never scrolls the screen. A terminal of fewer than two
/// rows has no room for a page.
pub fn page_size_for_height(height: u16) -> (page_size: Option<usize>)
    ensures
        height >= 2 ==> page_size == Some((height - 1) as usize),
        height < 2 ==> page_size.is_none(),
{
    if height >= 2 {
        Some((height - 1) as usize)
    } else {
        None
    }
}

impl PagerState {
    #[verifier::type_invariant]
    spec fn valid(&self) -> bool {
        self@.wf()
    }

    /// The state at the start of a session: page zero of a buffer of
    /// `total_lines` lines. There is no such state for an empty page.
    pub fn new(total_lines: usize, page_size: usize) -> (state: Option<PagerState>)
        ensures
            page_size > 0 ==> state.is_some() && state.unwrap()@ == (PagerModel {
                current_page: 0,
                page_size: page_size as nat,
                total_lines: total_lines as nat,
            }),
            page_size == 0 ==> state.is_none(),
    {
        if page_size == 0 {
            None
        } else {
            Some(PagerState { current_page: 0, page_size, total_lines })
        }
    }

    /// Index of the page on display.
    pub fn current_page(&self) -> (page: usize)
        ensures
            page == self@.current_page,
            self@.wf(),
    {
        proof {
            use_type_invariant(self);
        }
        self.current_page
    }

    /// Lines per page; never zero.
    pub fn page_size(&self) -> (size: usize)
        ensures
            size == self@.page_size,
            size > 0,
            self@.wf(),
    {
        proof {
            use_type_invariant(self);
        }
        self.page_size
    }

    /// Lines in the buffer being shown.
    pub fn total_lines(&self) -> (total: usize)
        ensures
            total == self@.total_lines,
            self@.wf(),
    {
        proof {
            use_type_invariant(self);
        }
        self.total_lines
    }

    /// Index of the last page that can be reached.
    pub fn last_page(&self) -> (page: usize)
        ensures
            page == last_page(self@.total_lines, self@.page_size),
            self@.current_page <= page,
    {
        proof {
            use_type_invariant(self);
        }
        self.total_lines / self.page_size
    }

    /// Carries out one command and says what the caller has to do next.
    pub fn apply(&mut self, command: Command) -> (action: Action)
        ensures
            final(self)@ == old(self)@.apply(command),
            action == old(self)@.action(command),
            final(self)@.wf(),
    {
        proof {
            use_type_invariant(&*self);
        }
        match command {
            Command::Quit => Action::Quit,
            Command::Advance => {
                if self.current_page < self.total_lines / self.page_size {
                    self.current_page = self.current_page + 1;
                    Action::Render
                } else {
                    Action::Wait
                }
            },
            Command::Retreat => {
                if self.current_page > 0 {
                    self.current_page = self.current_page - 1;
                    Action::Render
                } else {
                    Action::Wait
                }
            },
            Command::Ignore => Action::Wait,
        }
    }

    /// Takes in one event: a key press is looked up in the key bindings and
    /// carried out; anything else leaves the state alone.
    pub fn step(&mut self, event: Event) -> (action: Action)
        ensures
            final(self)@ == old(self)@.apply(command_of(event)),
            action == old(self)@.action(command_of(event)),
            final(self)@.wf(),
    {
        self.apply(event.command())
    }
}

/// A pager session: a buffer of lines and the position in it.
#[derive(Debug)]
pub struct Pager {
    buffer: LineBuffer,
    state: PagerState,
}

impl Pager {
    #[verifier::type_invariant]
    spec fn valid(&self) -> bool {
        &&& self.state@.wf()
        &&& self.state@.total_lines == self.buffer@.len()
    }

    /// The lines that the session shows, page by page.
    pub closed spec fn lines(&self) -> Seq<Seq<char>> {
        self.buffer@
    }

    /// The position of the session in its lines.
    pub closed spec fn position(&self) -> PagerModel {
        self.state@
    }

    /// Starts a session on page zero of `buffer`, with the page size that a
    /// terminal of `terminal_height` rows allows. There is no session on a
    /// terminal of fewer than two rows.
    pub fn new(buffer: LineBuffer, terminal_height: u16) -> (pager: Option<Pager>)
        ensures
            terminal_height >= 2 ==> pager.is_some() && pager.unwrap().lines() == buffer@
                && pager.unwrap().position() == (PagerModel {
                current_page: 0,
                page_size: (terminal_height - 1) as nat,
                total_lines: buffer@.len(),
            }),
            terminal_height < 2 ==> pager.is_none(),
    {
        let page_size: usize = match page_size_for_height(terminal_height) {
            Some(page_size) => page_size,
            None => {
                return None;
            },
        };
        match PagerState::new(buffer.len(), page_size) {
            Some(state) => Some(Pager { buffer, state }),
            None => None,
        }
    }

    /// The position of the session.
    pub fn state(&self) -> (state: PagerState)
        ensures
            state@ == self.position(),
            state@.wf(),
            state@.total_lines == self.lines().len(),
    {
        proof {
            use_type_invariant(self);
        }
        self.state
    }

    /// The lines of the session.
    pub fn buffer(&self) -> (buffer: &LineBuffer)
        ensures
            buffer@ == self.lines(),
    {
        &self.buffer
    }

    /// The lines of the page on display: those from line
    /// `current_page * page_size` on, a full page of them or as many as are
    /// left.
    pub fn visible(&self) -> (shown: &[String])
        ensures
            shown.deep_view() == page_of(
                self.lines(),
                self.position().page_size,
                self.position().current_page,
            ),
            shown@.len() == self.position().shown_len(),
            shown@.len() <= self.position().page_size,
            self.position().current_page * self.position().page_size + shown@.len()
                <= self.lines().len(),
    {
        proof {
            use_type_invariant(self);
            lemma_start_of_reachable_page(
                self.state@.total_lines,
                self.state@.page_size,
                self.state@.current_page,
            );
        }
        self.buffer.render_page(self.state.current_page(), self.state.page_size())
    }

    /// Takes in one event. The lines stay as they are; the position moves as
    /// the key bindings say, by one page at most.
    pub fn handle(&mut self, event: Event) -> (action: Action)
        ensures
            final(self).lines() == old(self).lines(),
            final(self).position() == old(self).position().apply(command_of(event)),
            action == old(self).position().action(command_of(event)),
    {
        proof {
            use_type_invariant(&*self);
        }
        let mut state = self.state;
        let action = state.step(event);
        self.state = state;
        action
    }
}

/// No command changes the page size or the number of lines, and every
/// command leaves a valid position valid.
pub proof fn lemma_apply_keeps_valid(position: PagerModel, command: Command)
    requires
        position.wf(),
    ensures
        position.apply(command).wf(),
        position.apply(command).page_size == position.page_size,
        position.apply(command).total_lines == position.total_lines,
{
}

/// A command moves the page on display by one page or not at all: forward
/// only on `Advance`, back only on `Retreat`.
pub proof fn lemma_one_page_at_a_time(position: PagerModel, command: Command)
    ensures
        position.apply(command).current_page == position.current_page || (command
            == Command::Advance && position.apply(command).current_page == position.current_page
            + 1) || (command == Command::Retreat && position.apply(command).current_page
            == position.current_page - 1),
{
}

/// The page on display always begins within the content: the position
/// never runs past the page that holds the final line.
pub proof fn lemma_page_on_display_is_within_content(position: PagerModel)
    requires
        position.wf(),
    ensures
        position.current_page * position.page_size <= position.total_lines,
        page_start(position.total_lines, position.page_size, position.current_page)
            == position.current_page * position.page_size,
        position.current_page * position.page_size < position.total_lines
            ==> position.shown_len() > 0,
        position.has_next() ==> position.shown_len() == position.page_size,
{
    lemma_start_of_reachable_page(
        position.total_lines,
        position.page_size,
        position.current_page,
    );
}

/// Whatever the commands, a valid position stays valid and keeps its page
/// size and its number of lines.
pub proof fn lemma_apply_all_keeps_valid(position: PagerModel, commands: Seq<Command>)
    requires
        position.wf(),
    ensures
        position.apply_all(commands).wf(),
        position.apply_all(commands).page_size == position.page_size,
        position.apply_all(commands).total_lines == position.total_lines,
    decreases commands.len(),
{
    if commands.len() > 0 {
        lemma_apply_all_keeps_valid(position, commands.drop_last());
    }
}

/// From page zero, advancing `page` times shows page `page`, for every page
/// up to the last: each page of the content can be reached.
pub proof fn lemma_advancing_reaches_every_page(position: PagerModel, page: nat)
    requires
        position.wf(),
        position.current_page == 0,
        page <= last_page(position.total_lines, position.page_size),
    ensures
        position.apply_all(Seq::new(page, |i: int| Command::Advance)) == position.at(page),
    decreases page,
{
    let commands = Seq::new(page, |i: int| Command::Advance);
    if page > 0 {
        let fewer = Seq::new((page - 1) as nat, |i: int| Command::Advance);
        assert(commands.drop_last() =~= fewer);
        lemma_advancing_reaches_every_page(position, (page - 1) as nat);
    }
}

/// On the last page, asking to advance changes nothing and redraws nothing,
/// however often it is asked.
pub proof fn lemma_advance_on_last_page(position: PagerModel, commands: Seq<Command>)
    requires
        !position.has_next(),
        forall|i: int| 0 <= i < commands.len() ==> commands[i] == Command::Advance,
    ensures
        position.apply_all(commands) == position,
        position.action(Command::Advance) == Action::Wait,
    decreases commands.len(),
{
    if commands.len() > 0 {
        lemma_advance_on_last_page(position, commands.drop_last());
    }
}

/// On page zero, asking to retreat changes nothing and redraws nothing,
/// however often it is asked.
pub proof fn lemma_retreat_on_first_page(position: PagerModel, commands: Seq<Command>)
    requires
        position.current_page == 0,
        forall|i: int| 0 <= i < commands.len() ==> commands[i] == Command::Retreat,
    ensures
        position.apply_all(commands) == position,
        position.action(Command::Retreat) == Action::Wait,
    decreases commands.len(),
{
    if commands.len() > 0 {
        lemma_retreat_on_first_page(position, commands.drop_last());
    }
}

/// Keys without a binding, events that are no key press and timeouts leave
/// the position alone and redraw nothing.
pub proof fn lemma_unbound_input_is_ignored(position: PagerModel, event: Event)
    requires
        event != Event::Key(Key::Up),
        event != Event::Key(Key::Down),
        event != Event::Key(Key::Char('q')),
        event != Event::Key(Key::Char(' ')),
    ensures
        position.apply(command_of(event)) == position,
        position.action(command_of(event)) == Action::Wait,
{
}

} // verus!
