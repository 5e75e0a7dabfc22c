//! The device lifecycle: list the input devices, wait for the user's choice,
//! open the chosen device, then take in its reports one after another.
//!
//! The controller performs no input or output. It says what it needs from the
//! transport ([`App::request`]), takes what the transport answered
//! ([`App::process`]) and takes the user's input ([`App::handle_events`]).
//! Each of these is a total function of the state and of what came in.

use crate::devices::{DeviceDescriptor, DeviceList, DeviceListView};
use crate::telemetry::{decoded_report, ReportLayout, SteeringWheelData, GAS_OFFSET, REPORT_LEN};
use vstd::prelude::*;

verus! {

/// The poll window of a read, in milliseconds.
pub const READ_TIMEOUT_MS: i32 = 16;

/// Where the controller stands in the lifecycle. `H` is the transport's
/// handle on an open device.
#[derive(Debug, PartialEq, Eq)]
pub enum ControllerState<H> {
    /// Nothing is known yet: the devices are to be listed.
    LoadingDevices,
    /// The devices are listed and the user is choosing.
    FoundDevices(DeviceList),
    /// The user has chosen; the device is to be opened.
    DeviceSelected(DeviceDescriptor),
    /// The device is open; the snapshot is that of the latest report, if any
    /// has come.
    StreamingTelemetry(H, Option<SteeringWheelData>),
}

/// The mathematical content of a [`ControllerState`].
pub enum StateView<H> {
    LoadingDevices,
    FoundDevices(DeviceListView),
    DeviceSelected(DeviceDescriptor),
    StreamingTelemetry(H, Option<SteeringWheelData>),
}

/// What the transport answered to a request. `E` is the transport's error.
#[derive(Debug, PartialEq, Eq)]
pub enum TransportOutcome<H, E> {
    /// The devices were listed; there may be none.
    Enumerated(Vec<DeviceDescriptor>),
    /// The devices could not be listed.
    EnumerationFailed,
    /// The chosen device was opened.
    Opened(H),
    /// The chosen device could not be opened.
    OpenFailed(E),
    /// A report was read.
    ReportRead([u8; 32]),
    /// No report came within the poll window.
    ReadTimedOut,
    /// The read failed for another reason than time.
    ReadFailed(E),
}

/// A failure that ends the session.
#[derive(Debug, PartialEq, Eq)]
pub enum ControllerError<E> {
    /// The chosen device could not be opened.
    Open(E),
    /// Reading from the open device failed.
    Read(E),
}

/// What the controller needs from the transport next.
#[derive(Debug)]
pub enum TransportRequest<'a, H> {
    /// List the input devices.
    Enumerate,
    /// Open this device.
    Open(&'a DeviceDescriptor),
    /// Read one report from this device, waiting no longer than the poll
    /// window.
    Read(&'a H),
    /// Nothing.
    Idle,
}

#[derive(Clone, Copy, Debug, PartialEq, Eq, Structural)]
pub enum KeyCode {
    Char(char),
    Up,
    Down,
    Enter,
    Other,
}

#[derive(Clone, Copy, Debug, PartialEq, Eq, Structural)]
pub enum KeyEventKind {
    Press,
    Repeat,
    Release,
}

#[derive(Clone, Copy, Debug, PartialEq, Eq, Structural)]
pub struct KeyEvent {
    pub code: KeyCode,
    pub kind: KeyEventKind,
}

/// One event of the terminal.
#[derive(Clone, Copy, Debug, PartialEq, Eq, Structural)]
pub enum Event {
    Key(KeyEvent),
    /// Anything that is no key: a resize, the mouse, a change of focus.
    Other,
}

/// What the user can ask of the controller.
#[derive(Clone, Copy, Debug, PartialEq, Eq, Structural)]
pub enum Command {
    Quit,
    SelectPrevious,
    SelectNext,
    Confirm,
}

/// The command bound to a key: `q` quits, the arrows move the cursor, Enter
/// confirms. No other key is bound.
pub open spec fn command_of_key(code: KeyCode) -> Option<Command> {
    match code {
        KeyCode::Char(c) => if c == 'q' {
            Some(Command::Quit)
        } else {
            None
        },
        KeyCode::Up => Some(Command::SelectPrevious),
        KeyCode::Down => Some(Command::SelectNext),
        KeyCode::Enter => Some(Command::Confirm),
        KeyCode::Other => None,
    }
}

/// The command that an event of the terminal carries: that of its key, if it
/// is the press of a key.
pub open spec fn command_of_event(event: Option<Event>) -> Option<Command> {
    match event {
        Some(Event::Key(key)) => if key.kind == KeyEventKind::Press {
            command_of_key(key.code)
        } else {
            None
        },
        _ => None,
    }
}

impl Command {
    /// The command bound to a key.
    pub fn of_key(code: KeyCode) -> (command: Option<Command>)
        ensures
            command == command_of_key(code),
    {
        match code {
            KeyCode::Char('q') => Some(Command::Quit),
            KeyCode::Up => Some(Command::SelectPrevious),
            KeyCode::Down => Some(Command::SelectNext),
            KeyCode::Enter => Some(Command::Confirm),
            _ => None,
        }
    }

    /// The command that a poll of the terminal brought, if it brought one.
    pub fn of_event(event: Option<Event>) -> (command: Option<Command>)
        ensures
            command == command_of_event(event),
    {
        match event {
            Some(Event::Key(key_event)) => match key_event.kind {
                KeyEventKind::Press => Command::of_key(key_event.code),
                _ => None,
            },
            _ => None,
        }
    }
}

/// The controller: its state, whether it has come to its end, and the layout
/// of the reports of the device at hand.
#[derive(Debug)]
pub struct App<H> {
    exit: bool,
    layout: ReportLayout,
    state: ControllerState<H>,
}

/// The mathematical content of an [`App`].
pub struct AppView<H> {
    pub exit: bool,
    pub gas_offset: nat,
    pub state: StateView<H>,
}

impl<H> View for ControllerState<H> {
    type V = StateView<H>;

    open spec fn view(&self) -> StateView<H> {
        match *self {
            ControllerState::LoadingDevices => StateView::LoadingDevices,
            ControllerState::FoundDevices(list) => StateView::FoundDevices(list@),
            ControllerState::DeviceSelected(device) => StateView::DeviceSelected(device),
            ControllerState::StreamingTelemetry(handle, telemetry) => StateView::StreamingTelemetry(
                handle,
                telemetry,
            ),
        }
    }
}

impl<H> StateView<H> {
    /// The state after the transport's answer. An answer that the state did
    /// not ask for changes nothing, and neither does a failure or a timeout.
    pub open spec fn receive<E>(self, outcome: TransportOutcome<H, E>, gas_offset: nat) -> Self {
        match (self, outcome) {
            (StateView::LoadingDevices, TransportOutcome::Enumerated(devices)) => {
                StateView::FoundDevices(DeviceListView { items: devices@, cursor: None })
            },
            (StateView::DeviceSelected(_), TransportOutcome::Opened(handle)) => {
                StateView::StreamingTelemetry(handle, None)
            },
            (StateView::StreamingTelemetry(handle, _), TransportOutcome::ReportRead(report)) => {
                StateView::StreamingTelemetry(
                    handle,
                    Some(decoded_report(report@, gas_offset as int)),
                )
            },
            _ => self,
        }
    }

    /// The failure, if the transport's answer is one that ends the session:
    /// the chosen device did not open, or the open device failed to read.
    pub open spec fn failure<E>(self, outcome: TransportOutcome<H, E>) -> Option<
        ControllerError<E>,
    > {
        match (self, outcome) {
            (StateView::DeviceSelected(_), TransportOutcome::OpenFailed(error)) => Some(
                ControllerError::Open(error),
            ),
            (StateView::StreamingTelemetry(_, _), TransportOutcome::ReadFailed(error)) => Some(
                ControllerError::Read(error),
            ),
            _ => None,
        }
    }

    /// The state after the user's confirmation: the device under the cursor
    /// is chosen. Without a cursor, or outside the choice of a device,
    /// nothing changes.
    pub open spec fn confirm(self) -> Self {
        match self {
            StateView::FoundDevices(list) => match list.cursor {
                Some(i) if i < list.items.len() => StateView::DeviceSelected(list.items[i as int]),
                _ => self,
            },
            _ => self,
        }
    }

    /// The state after a step of the cursor. Outside the choice of a device
    /// nothing changes.
    pub open spec fn navigate(self, down: bool) -> Self {
        match self {
            StateView::FoundDevices(list) => StateView::FoundDevices(
                if down {
                    list.select_next()
                } else {
                    list.select_previous()
                },
            ),
            _ => self,
        }
    }

    /// Every list in the state has its cursor in bounds.
    pub open spec fn valid(self) -> bool {
        self matches StateView::FoundDevices(list) ==> list.valid()
    }
}

impl<H> AppView<H> {
    /// The gas pedal lies within the report, and the state is valid.
    pub open spec fn valid(self) -> bool {
        &&& self.gas_offset + 1 < REPORT_LEN
        &&& self.state.valid()
    }

    /// The controller after the transport's answer. A controller at its end
    /// takes in nothing. A failure that ends the session brings it to its
    /// end and leaves the state as it is.
    pub open spec fn process<E>(self, outcome: TransportOutcome<H, E>) -> Self {
        if self.exit {
            self
        } else {
            AppView {
                exit: self.state.failure(outcome) is Some,
                gas_offset: self.gas_offset,
                state: self.state.receive(outcome, self.gas_offset),
            }
        }
    }

    /// The failure that the transport's answer brings to a controller that
    /// is not at its end.
    pub open spec fn failure<E>(self, outcome: TransportOutcome<H, E>) -> Option<
        ControllerError<E>,
    > {
        if self.exit {
            None
        } else {
            self.state.failure(outcome)
        }
    }

    /// The controller after a command. A controller at its end takes in
    /// nothing.
    pub open spec fn execute(self, command: Command) -> Self {
        if self.exit {
            self
        } else {
            match command {
                Command::Quit => AppView { exit: true, ..self },
                Command::SelectPrevious => AppView { state: self.state.navigate(false), ..self },
                Command::SelectNext => AppView { state: self.state.navigate(true), ..self },
                Command::Confirm => AppView { state: self.state.confirm(), ..self },
            }
        }
    }

    /// The controller after an event of the terminal, or after none.
    pub open spec fn handle(self, event: Option<Event>) -> Self {
        match command_of_event(event) {
            Some(command) => self.execute(command),
            None => self,
        }
    }
}

impl<H> ControllerState<H> {
    fn receive<E>(&mut self, outcome: TransportOutcome<H, E>, layout: ReportLayout) -> (failure:
        Option<ControllerError<E>>)
        ensures
            final(self)@ == old(self)@.receive(outcome, layout.spec_gas_offset()),
            failure == old(self)@.failure(outcome),
    {
        let mut state = ControllerState::LoadingDevices;
        core::mem::swap(self, &mut state);
        let (next, failure) = match (state, outcome) {
            (ControllerState::LoadingDevices, TransportOutcome::Enumerated(devices)) => (
                ControllerState::FoundDevices(DeviceList::new(devices)),
                None,
            ),
            (ControllerState::DeviceSelected(_), TransportOutcome::Opened(handle)) => (
                ControllerState::StreamingTelemetry(handle, None),
                None,
            ),
            (ControllerState::DeviceSelected(device), TransportOutcome::OpenFailed(error)) => (
                ControllerState::DeviceSelected(device),
                Some(ControllerError::Open(error)),
            ),
            (
                ControllerState::StreamingTelemetry(handle, _),
                TransportOutcome::ReportRead(report),
            ) => (
                ControllerState::StreamingTelemetry(
                    handle,
                    Some(SteeringWheelData::decode(&report, layout)),
                ),
                None,
            ),
            (
                ControllerState::StreamingTelemetry(handle, telemetry),
                TransportOutcome::ReadFailed(error),
            ) => (
                ControllerState::StreamingTelemetry(handle, telemetry),
                Some(ControllerError::Read(error)),
            ),
            (state, _) => (state, None),
        };
        *self = next;
        failure
    }

    fn navigate(&mut self, down: bool)
        ensures
            final(self)@ == old(self)@.navigate(down),
    {
        match self {
            ControllerState::FoundDevices(list) => {
                if down {
                    list.select_next()
                } else {
                    list.select_previous()
                }
            },
            _ => {},
        }
    }

    fn confirm(&mut self)
        ensures
            final(self)@ == old(self)@.confirm(),
    {
        let mut state = ControllerState::LoadingDevices;
        core::mem::swap(self, &mut state);
        *self =
        match state {
            ControllerState::FoundDevices(list) => match list.into_selected() {
                Ok(device) => ControllerState::DeviceSelected(device),
                Err(list) => ControllerState::FoundDevices(list),
            },
            other => other,
        };
    }
}

impl<H> View for App<H> {
    type V = AppView<H>;

    closed spec fn view(&self) -> AppView<H> {
        AppView { exit: self.exit, gas_offset: self.layout.spec_gas_offset(), state: self.state@ }
    }
}

impl<H> App<H> {
    /// A controller at the start of the lifecycle, for a device whose
    /// reports have the given layout.
    pub fn new(layout: ReportLayout) -> (app: Self)
        ensures
            app@ == (AppView {
                exit: false,
                gas_offset: layout.spec_gas_offset(),
                state: StateView::<H>::LoadingDevices,
            }),
    {
        App { exit: false, layout, state: ControllerState::LoadingDevices }
    }

    /// Whether the controller has come to its end.
    pub fn should_exit(&self) -> (exit: bool)
        ensures
            exit == self@.exit,
    {
        self.exit
    }

    pub fn state(&self) -> (state: &ControllerState<H>)
        ensures
            state@ == self@.state,
    {
        &self.state
    }

    /// The snapshot of the latest report, if the device is open and a report
    /// has come.
    pub fn telemetry(&self) -> (telemetry: Option<SteeringWheelData>)
        ensures
            telemetry == match self@.state {
                StateView::StreamingTelemetry(_, telemetry) => telemetry,
                _ => None,
            },
    {
        match &self.state {
            ControllerState::StreamingTelemetry(_, telemetry) => *telemetry,
            _ => None,
        }
    }

    /// What the controller needs from the transport next: the step that its
    /// state calls for, and nothing once it has come to its end or while the
    /// user is choosing.
    pub fn request(&self) -> (request: TransportRequest<'_, H>)
        ensures
            match request {
                TransportRequest::Enumerate => !self@.exit && self@.state
                    is LoadingDevices,
                TransportRequest::Open(device) => !self@.exit && self@.state
                    == StateView::<H>::DeviceSelected(*device),
                TransportRequest::Read(handle) => !self@.exit && (
                self@.state matches StateView::StreamingTelemetry(h, _) && h == *handle),
                TransportRequest::Idle => self@.exit || self@.state is FoundDevices,
            },
    {
        if self.exit {
            TransportRequest::Idle
        } else {
            match &self.state {
                ControllerState::LoadingDevices => TransportRequest::Enumerate,
                ControllerState::FoundDevices(_) => TransportRequest::Idle,
                ControllerState::DeviceSelected(device) => TransportRequest::Open(device),
                ControllerState::StreamingTelemetry(handle, _) => TransportRequest::Read(handle),
            }
        }
    }

    /// Takes in the transport's answer.
    pub fn process<E>(&mut self, outcome: TransportOutcome<H, E>) -> (result: Result<
        (),
        ControllerError<E>,
    >)
        ensures
            final(self)@ == old(self)@.process(outcome),
            result == match old(self)@.failure(outcome) {
                Some(error) => Err::<(), ControllerError<E>>(error),
                None => Ok(()),
            },
    {
        if self.exit {
            return Ok(());
        }
        match self.state.receive(outcome, self.layout) {
            Some(error) => {
                self.exit = true;
                Err(error)
            },
            None => Ok(()),
        }
    }

    /// Moves the cursor one device down.
    pub fn select_next(&mut self)
        ensures
            final(self)@ == old(self)@.execute(Command::SelectNext),
    {
        if !self.exit {
            self.state.navigate(true);
        }
    }

    /// Moves the cursor one device up.
    pub fn select_previous(&mut self)
        ensures
            final(self)@ == old(self)@.execute(Command::SelectPrevious),
    {
        if !self.exit {
            self.state.navigate(false);
        }
    }

    /// Chooses the device under the cursor.
    pub fn choose_selected_device(&mut self)
        ensures
            final(self)@ == old(self)@.execute(Command::Confirm),
    {
        if !self.exit {
            self.state.confirm();
        }
    }

    /// Brings the controller to its end.
    pub fn exit(&mut self)
        ensures
            final(self)@ == old(self)@.execute(Command::Quit),
    {
        self.exit = true;
    }

    /// Carries out a command.
    pub fn execute(&mut self, command: Command)
        ensures
            final(self)@ == old(self)@.execute(command),
    {
        match command {
            Command::Quit => self.exit(),
            Command::SelectPrevious => self.select_previous(),
            Command::SelectNext => self.select_next(),
            Command::Confirm => self.choose_selected_device(),
        }
    }

    /// Carries out the command bound to a key, if there is one.
    pub fn handle_key_event(&mut self, key_event: KeyEvent)
        ensures
            final(self)@ == match command_of_key(key_event.code) {
                Some(command) => old(self)@.execute(command),
                None => old(self)@,
            },
    {
        match Command::of_key(key_event.code) {
            Some(command) => self.execute(command),
            None => {},
        }
    }

    /// Takes in what a poll of the terminal brought: an event, or none
    /// within the poll window. Only the press of a key counts.
    pub fn handle_events(&mut self, event: Option<Event>)
        ensures
            final(self)@ == old(self)@.handle(event),
    {
        match Command::of_event(event) {
            Some(command) => self.execute(command),
            None => {},
        }
    }
}

impl<H> Default for App<H> {
    /// A controller at the start of the lifecycle, for a device whose
    /// reports have the default layout.
    fn default() -> (app: Self)
        ensures
            app@ == (AppView {
                exit: false,
                gas_offset: GAS_OFFSET as nat,
                state: StateView::<H>::LoadingDevices,
            }),
    {
        App::new(ReportLayout::default())
    }
}

/// Confirming while no device is under the cursor changes nothing, whether
/// the confirmation comes as a command or as the press of Enter.
pub proof fn lemma_confirm_without_cursor_changes_nothing<H>(app: AppView<H>)
    requires
        app.state matches StateView::FoundDevices(list) && list.cursor is None,
    ensures
        app.execute(Command::Confirm) == app,
        app.handle(
            Some(Event::Key(KeyEvent { code: KeyCode::Enter, kind: KeyEventKind::Press })),
        ) == app,
{
}

/// Quitting brings the controller to its end from every state, the listing
/// of devices included, and leaves the state as it is. Whatever the
/// transport answers afterwards, and whatever the user asks, changes nothing
/// any more and is no failure.
pub proof fn lemma_quit_ends_the_session<H, E>(
    app: AppView<H>,
    outcome: TransportOutcome<H, E>,
    command: Command,
)
    ensures
        app.execute(Command::Quit).exit,
        app.execute(Command::Quit).state == app.state,
        app.handle(
            Some(Event::Key(KeyEvent { code: KeyCode::Char('q'), kind: KeyEventKind::Press })),
        ) == app.execute(Command::Quit),
        app.execute(Command::Quit).process(outcome) == app.execute(Command::Quit),
        app.execute(Command::Quit).failure(outcome) is None,
        app.execute(Command::Quit).execute(command) == app.execute(Command::Quit),
{
}

/// A timeout of the read, and a failed listing of the devices, change
/// nothing: the snapshot at hand stays, and the listing is asked for again.
pub proof fn lemma_no_news_changes_nothing<H, E>(app: AppView<H>)
    ensures
        app.process(TransportOutcome::<H, E>::ReadTimedOut) == app,
        app.process(TransportOutcome::<H, E>::EnumerationFailed) == app,
        app.failure(TransportOutcome::<H, E>::ReadTimedOut) is None,
        app.failure(TransportOutcome::<H, E>::EnumerationFailed) is None,
{
}

/// No transition takes the cursor out of the list or moves the gas pedal
/// out of the report.
pub proof fn lemma_transitions_keep_validity<H, E>(
    app: AppView<H>,
    outcome: TransportOutcome<H, E>,
    event: Option<Event>,
)
    requires
        app.valid(),
    ensures
        app.process(outcome).valid(),
        app.handle(event).valid(),
{
}

} // verus!
