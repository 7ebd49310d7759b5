//! The player's vocabulary: the requests sent to it, the events it reports,
//! and the reading of a raw event object into a typed event.

use vstd::prelude::*;
use vstd::string::StringExecFns;
use crate::text::{natural_text, push_natural, same_text};

verus! {

/// A raw event has the shape of a known event but its payload does not.
#[derive(Clone, Debug, PartialEq, Eq)]
pub struct EventParsingError {
    pub reason: String,
}

/// The player process ended with a non-zero status.
#[derive(Clone, Debug, PartialEq, Eq)]
pub struct ExitError {
    pub status_code: i32,
    pub reason: String,
}

/// The player's socket did not appear in time.
#[derive(Clone, Debug, PartialEq, Eq)]
pub struct MpvStartupError {
    pub reason: String,
}

/// The command word of a request.
#[derive(Clone, Copy, Debug, PartialEq, Eq, Structural)]
pub enum RequestType {
    Keybind,
    ObserveProperty,
    SetProperty,
    OSDMsg,
    OsdOverlay,
}

/// A property of the player that can be set or observed.
#[derive(Clone, Copy, Debug, PartialEq, Eq, Structural)]
pub enum Property {
    TimePos,
    Speed,
    Seeking,
    Pause,
}

/// The observed properties whose value is a number.
#[derive(Clone, Copy, Debug, PartialEq, Eq, Structural)]
pub enum FloatProperty {
    TimePos,
    Speed,
}

/// The observed properties whose value is a flag.
#[derive(Clone, Copy, Debug, PartialEq, Eq, Structural)]
pub enum BoolProperty {
    Seeking,
}

impl RequestType {
    /// The command word as the player knows it.
    pub open spec fn word(self) -> Seq<char> {
        match self {
            RequestType::Keybind => "keybind"@,
            RequestType::ObserveProperty => "observe_property"@,
            RequestType::SetProperty => "set_property"@,
            RequestType::OSDMsg => "osd-msg"@,
            RequestType::OsdOverlay => "osd-overlay"@,
        }
    }

    /// The command word as the player knows it.
    pub fn name(&self) -> (r: &'static str)
        ensures
            r@ == self.word(),
    {
        match self {
            RequestType::Keybind => "keybind",
            RequestType::ObserveProperty => "observe_property",
            RequestType::SetProperty => "set_property",
            RequestType::OSDMsg => "osd-msg",
            RequestType::OsdOverlay => "osd-overlay",
        }
    }
}

impl Property {
    /// The property's name as the player knows it.
    pub open spec fn word(self) -> Seq<char> {
        match self {
            Property::TimePos => "time-pos"@,
            Property::Speed => "speed"@,
            Property::Seeking => "seeking"@,
            Property::Pause => "pause"@,
        }
    }

    /// The property's name as the player knows it.
    pub fn name(&self) -> (r: &'static str)
        ensures
            r@ == self.word(),
    {
        match self {
            Property::TimePos => "time-pos",
            Property::Speed => "speed",
            Property::Seeking => "seeking",
            Property::Pause => "pause",
        }
    }
}

/// One argument of a request. `Number` counts thousandths.
#[derive(Clone, Debug, PartialEq, Eq)]
pub enum Value {
    Bool(bool),
    Number(i64),
    Integer(i64),
    Text(String),
    Name(Property),
}

/// What a `Value` holds.
pub enum ValueModel {
    Bool(bool),
    Number(i64),
    Integer(i64),
    Text(Seq<char>),
    Name(Property),
}

impl View for Value {
    type V = ValueModel;

    open spec fn view(&self) -> ValueModel {
        match *self {
            Value::Bool(b) => ValueModel::Bool(b),
            Value::Number(n) => ValueModel::Number(n),
            Value::Integer(n) => ValueModel::Integer(n),
            Value::Text(s) => ValueModel::Text(s@),
            Value::Name(p) => ValueModel::Name(p),
        }
    }
}

/// A request to the player: a command word and its two arguments.
#[derive(Clone, Debug, PartialEq, Eq)]
pub struct Request {
    pub command: RequestType,
    pub v1: Value,
    pub v2: Value,
}

/// What a `Request` holds.
pub struct RequestModel {
    pub command: RequestType,
    pub v1: ValueModel,
    pub v2: ValueModel,
}

impl View for Request {
    type V = RequestModel;

    open spec fn view(&self) -> RequestModel {
        RequestModel { command: self.command, v1: self.v1@, v2: self.v2@ }
    }
}

impl RequestModel {
    /// The request that pauses or resumes.
    pub open spec fn set_pause(val: bool) -> RequestModel {
        RequestModel {
            command: RequestType::SetProperty,
            v1: ValueModel::Name(Property::Pause),
            v2: ValueModel::Bool(val),
        }
    }

    /// The request that jumps to a position.
    pub open spec fn seek(val: i64) -> RequestModel {
        RequestModel {
            command: RequestType::SetProperty,
            v1: ValueModel::Name(Property::TimePos),
            v2: ValueModel::Number(val),
        }
    }

    /// The request that sets the playback rate.
    pub open spec fn speed(val: i64) -> RequestModel {
        RequestModel {
            command: RequestType::SetProperty,
            v1: ValueModel::Name(Property::Speed),
            v2: ValueModel::Number(val),
        }
    }

    /// The request to be told of every change of a property.
    pub open spec fn observe_property(property: Property) -> RequestModel {
        RequestModel {
            command: RequestType::ObserveProperty,
            v1: ValueModel::Integer(1),
            v2: ValueModel::Name(property),
        }
    }

    /// The request that shows a plain message.
    pub open spec fn display_message(msg: Seq<char>) -> RequestModel {
        RequestModel {
            command: RequestType::OSDMsg,
            v1: ValueModel::Text("show-text"@),
            v2: ValueModel::Text(msg),
        }
    }

    /// The request that binds a key to a script command.
    pub open spec fn keybind(key: Seq<char>, command: Seq<char>) -> RequestModel {
        RequestModel {
            command: RequestType::Keybind,
            v1: ValueModel::Text(key),
            v2: ValueModel::Text(command),
        }
    }

    /// The request that replaces the overlay.
    pub open spec fn osd_overlay(text: Seq<char>) -> RequestModel {
        RequestModel {
            command: RequestType::OsdOverlay,
            v1: ValueModel::Text("ass-events"@),
            v2: ValueModel::Text(text),
        }
    }
}

impl Request {
    /// Pause or resume.
    pub fn set_pause(val: bool) -> (r: Request)
        ensures
            r@ == RequestModel::set_pause(val),
    {
        Request {
            command: RequestType::SetProperty,
            v1: Value::Name(Property::Pause),
            v2: Value::Bool(val),
        }
    }

    /// Jump to a position, in milliseconds.
    pub fn seek(val: i64) -> (r: Request)
        ensures
            r@ == RequestModel::seek(val),
    {
        Request {
            command: RequestType::SetProperty,
            v1: Value::Name(Property::TimePos),
            v2: Value::Number(val),
        }
    }

    /// Set the playback rate, in thousandths.
    pub fn speed(val: i64) -> (r: Request)
        ensures
            r@ == RequestModel::speed(val),
    {
        Request {
            command: RequestType::SetProperty,
            v1: Value::Name(Property::Speed),
            v2: Value::Number(val),
        }
    }

    /// Ask to be told of every change of a property, under observer id 1.
    pub fn observe_property(property: Property) -> (r: Request)
        ensures
            r@ == RequestModel::observe_property(property),
    {
        Request {
            command: RequestType::ObserveProperty,
            v1: Value::Integer(1),
            v2: Value::Name(property),
        }
    }

    /// Show a plain message on screen.
    pub fn display_message(msg: &str) -> (r: Request)
        ensures
            r@ == RequestModel::display_message(msg@),
    {
        Request {
            command: RequestType::OSDMsg,
            v1: Value::Text(String::from_str("show-text")),
            v2: Value::Text(String::from_str(msg)),
        }
    }

    /// Bind a key to a script command.
    pub fn keybind(key: &str, command: &str) -> (r: Request)
        ensures
            r@ == RequestModel::keybind(key@, command@),
    {
        Request {
            command: RequestType::Keybind,
            v1: Value::Text(String::from_str(key)),
            v2: Value::Text(String::from_str(command)),
        }
    }

    /// Replace the on-screen overlay with styled text; empty text clears it.
    pub fn osd_overlay(text: &str) -> (r: Request)
        ensures
            r@ == RequestModel::osd_overlay(text@),
    {
        Request {
            command: RequestType::OsdOverlay,
            v1: Value::Text(String::from_str("ass-events")),
            v2: Value::Text(String::from_str(text)),
        }
    }
}

/// An event reported by the player. Numbers count thousandths.
#[derive(Clone, Debug, PartialEq, Eq)]
pub enum Event {
    SuccessResponse { request_id: i32 },
    ErrorResponse { request_id: i32, error: String },
    Event { event: String },
    ClientMessage { id: String },
    FloatPropertyChange { property: FloatProperty, value: i64 },
    BoolPropertyChange { property: BoolProperty, value: bool },
    Seek,
}

/// What an `Event` holds.
#[allow(inconsistent_fields)]
pub enum EventModel {
    SuccessResponse { request_id: i32 },
    ErrorResponse { request_id: i32, error: Seq<char> },
    Event { event: Seq<char> },
    ClientMessage { id: Seq<char> },
    FloatPropertyChange { property: FloatProperty, value: i64 },
    BoolPropertyChange { property: BoolProperty, value: bool },
    Seek,
}

impl View for Event {
    type V = EventModel;

    open spec fn view(&self) -> EventModel {
        match *self {
            Event::SuccessResponse { request_id } => EventModel::SuccessResponse { request_id },
            Event::ErrorResponse { request_id, error } => EventModel::ErrorResponse {
                request_id,
                error: error@,
            },
            Event::Event { event } => EventModel::Event { event: event@ },
            Event::ClientMessage { id } => EventModel::ClientMessage { id: id@ },
            Event::FloatPropertyChange { property, value } => EventModel::FloatPropertyChange {
                property,
                value,
            },
            Event::BoolPropertyChange { property, value } => EventModel::BoolPropertyChange {
                property,
                value,
            },
            Event::Seek => EventModel::Seek,
        }
    }
}

/// A payload inside a raw event, as far as the reading looks at it. `Float`
/// counts thousandths; `Other` is anything that is neither a fractional
/// number, a flag nor a string.
#[derive(Clone, Debug, PartialEq, Eq)]
pub enum Datum {
    Float(i64),
    Bool(bool),
    Text(String),
    Other,
}

/// One line from the player, with every field optional.
#[derive(Clone, Debug, PartialEq, Eq)]
pub struct EventRaw {
    pub request_id: Option<i32>,
    pub error: Option<String>,
    pub event: Option<String>,
    pub name: Option<String>,
    pub data: Option<Datum>,
    pub args: Option<Vec<Datum>>,
}

/// The number in `.data`: zero when the field is missing, an error when it
/// holds anything but a fractional number.
pub open spec fn data_number(raw: EventRaw) -> Result<i64, Seq<char>> {
    match raw.data {
        None => Ok(0i64),
        Some(Datum::Float(v)) => Ok(v),
        Some(_) => Err("Expected .data to be float, got something else"@),
    }
}

/// The flag in `.data`: false when the field is missing, an error when it
/// holds anything but a flag.
pub open spec fn data_flag(raw: EventRaw) -> Result<bool, Seq<char>> {
    match raw.data {
        None => Ok(false),
        Some(Datum::Bool(v)) => Ok(v),
        Some(_) => Err("Expected .data to be bool, got something else"@),
    }
}

/// The string at the head of `.args`.
pub open spec fn first_arg(raw: EventRaw) -> Result<Seq<char>, Seq<char>> {
    match raw.args {
        None => Err("Expected .args, got nothing"@),
        Some(args) => if args@.len() == 0 {
            Err("Expected len(.args), got 0"@)
        } else {
            match args@[0] {
                Datum::Text(s) => Ok(s@),
                _ => Err("Expected .args[0] to be string, got something else"@),
            }
        },
    }
}

/// What a property change stands for: a typed event for the three observed
/// properties, nothing for any other name or for a missing one.
pub open spec fn parsed_property(raw: EventRaw) -> Result<Option<EventModel>, Seq<char>> {
    match raw.name {
        None => Ok(None),
        Some(name) => if name@ == "time-pos"@ {
            match data_number(raw) {
                Ok(value) => Ok(
                    Some(EventModel::FloatPropertyChange { property: FloatProperty::TimePos, value }),
                ),
                Err(e) => Err(e),
            }
        } else if name@ == "speed"@ {
            match data_number(raw) {
                Ok(value) => Ok(
                    Some(EventModel::FloatPropertyChange { property: FloatProperty::Speed, value }),
                ),
                Err(e) => Err(e),
            }
        } else if name@ == "seeking"@ {
            match data_flag(raw) {
                Ok(value) => Ok(
                    Some(EventModel::BoolPropertyChange { property: BoolProperty::Seeking, value }),
                ),
                Err(e) => Err(e),
            }
        } else {
            Ok(None)
        },
    }
}

/// What a raw event stands for. An `error` field makes it a response; else
/// the `event` field decides; an object with neither, or with an event name
/// that is not handled, stands for nothing.
pub open spec fn parsed(raw: EventRaw) -> Result<Option<EventModel>, Seq<char>> {
    let request_id: i32 = match raw.request_id {
        Some(id) => id,
        None => 0i32,
    };
    match raw.error {
        Some(error) => if error@ == "success"@ {
            Ok(Some(EventModel::SuccessResponse { request_id }))
        } else {
            Ok(Some(EventModel::ErrorResponse { request_id, error: error@ }))
        },
        None => match raw.event {
            None => Ok(None),
            Some(kind) => if kind@ == "pause"@ || kind@ == "unpause"@ || kind@
                == "playback-restart"@ {
                Ok(Some(EventModel::Event { event: kind@ }))
            } else if kind@ == "client-message"@ {
                match first_arg(raw) {
                    Ok(id) => Ok(Some(EventModel::ClientMessage { id })),
                    Err(e) => Err(e),
                }
            } else if kind@ == "property-change"@ {
                parsed_property(raw)
            } else if kind@ == "seek"@ {
                Ok(Some(EventModel::Seek))
            } else {
                Ok(None)
            },
        },
    }
}

/// Whether a result of reading agrees with what the raw event stands for.
pub open spec fn reads_as(
    r: Result<Option<Event>, EventParsingError>,
    want: Result<Option<EventModel>, Seq<char>>,
) -> bool {
    match want {
        Ok(Some(m)) => r matches Ok(Some(e)) && e@ == m,
        Ok(None) => r matches Ok(None),
        Err(reason) => r matches Err(e) && e.reason@ == reason,
    }
}

impl EventRaw {
    /// The number in `.data`, or zero when there is no `.data`.
    pub fn take_data_f64(&self) -> (r: Result<i64, EventParsingError>)
        ensures
            match data_number(*self) {
                Ok(v) => r == Ok::<i64, EventParsingError>(v),
                Err(reason) => r matches Err(e) && e.reason@ == reason,
            },
    {
        match &self.data {
            None => Ok(0i64),
            Some(Datum::Float(v)) => Ok(*v),
            Some(_) => Err(
                EventParsingError {
                    reason: String::from_str("Expected .data to be float, got something else"),
                },
            ),
        }
    }

    /// The flag in `.data`, or false when there is no `.data`.
    pub fn take_data_bool(&self) -> (r: Result<bool, EventParsingError>)
        ensures
            match data_flag(*self) {
                Ok(v) => r == Ok::<bool, EventParsingError>(v),
                Err(reason) => r matches Err(e) && e.reason@ == reason,
            },
    {
        match &self.data {
            None => Ok(false),
            Some(Datum::Bool(v)) => Ok(*v),
            Some(_) => Err(
                EventParsingError {
                    reason: String::from_str("Expected .data to be bool, got something else"),
                },
            ),
        }
    }

    /// The string at the head of `.args`.
    pub fn take_arg_str(&self) -> (r: Result<String, EventParsingError>)
        ensures
            match first_arg(*self) {
                Ok(v) => r matches Ok(s) && s@ == v,
                Err(reason) => r matches Err(e) && e.reason@ == reason,
            },
    {
        match &self.args {
            None => Err(EventParsingError { reason: String::from_str("Expected .args, got nothing") }),
            Some(args) => {
                if args.len() == 0 {
                    Err(EventParsingError { reason: String::from_str("Expected len(.args), got 0") })
                } else {
                    match &args[0] {
                        Datum::Text(s) => Ok(s.clone()),
                        _ => Err(
                            EventParsingError {
                                reason: String::from_str(
                                    "Expected .args[0] to be string, got something else",
                                ),
                            },
                        ),
                    }
                }
            },
        }
    }

    fn parse_property(&self) -> (r: Result<Option<Event>, EventParsingError>)
        ensures
            reads_as(r, parsed_property(*self)),
    {
        match &self.name {
            None => Ok(None),
            Some(name) => {
                if same_text(name, "time-pos") {
                    match self.take_data_f64() {
                        Ok(value) => Ok(
                            Some(Event::FloatPropertyChange { property: FloatProperty::TimePos, value }),
                        ),
                        Err(e) => Err(e),
                    }
                } else if same_text(name, "speed") {
                    match self.take_data_f64() {
                        Ok(value) => Ok(
                            Some(Event::FloatPropertyChange { property: FloatProperty::Speed, value }),
                        ),
                        Err(e) => Err(e),
                    }
                } else if same_text(name, "seeking") {
                    match self.take_data_bool() {
                        Ok(value) => Ok(
                            Some(Event::BoolPropertyChange { property: BoolProperty::Seeking, value }),
                        ),
                        Err(e) => Err(e),
                    }
                } else {
                    Ok(None)
                }
            },
        }
    }

    /// Reads the raw event: `Ok(Some(..))` for a response or a handled
    /// event, `Ok(None)` for what is skipped, `Err(..)` where a handled event
    /// carries a payload of the wrong shape.
    pub fn parse(&self) -> (r: Result<Option<Event>, EventParsingError>)
        ensures
            reads_as(r, parsed(*self)),
    {
        let request_id: i32 = match self.request_id {
            Some(id) => id,
            None => 0i32,
        };
        match &self.error {
            Some(error) => {
                if same_text(error, "success") {
                    Ok(Some(Event::SuccessResponse { request_id }))
                } else {
                    Ok(Some(Event::ErrorResponse { request_id, error: error.clone() }))
                }
            },
            None => match &self.event {
                None => Ok(None),
                Some(kind) => {
                    if same_text(kind, "pause") || same_text(kind, "unpause") || same_text(
                        kind,
                        "playback-restart",
                    ) {
                        Ok(Some(Event::Event { event: kind.clone() }))
                    } else if same_text(kind, "client-message") {
                        match self.take_arg_str() {
                            Ok(id) => Ok(Some(Event::ClientMessage { id })),
                            Err(e) => Err(e),
                        }
                    } else if same_text(kind, "property-change") {
                        self.parse_property()
                    } else if same_text(kind, "seek") {
                        Ok(Some(Event::Seek))
                    } else {
                        Ok(None)
                    }
                },
            },
        }
    }
}

/// What to do after looking for the player's socket.
#[derive(Clone, Debug, PartialEq, Eq)]
pub enum SocketWait {
    /// The socket is there: connect.
    Connect,
    /// Not yet: look again after this many milliseconds.
    Retry { after_ms: u64 },
    /// It did not appear within the allowed number of looks.
    GiveUp { error: MpvStartupError },
}

/// The pause between two looks for the socket, in milliseconds.
pub const CHECK_SOCKET_INTERVAL_MS: u64 = 100;

/// How many times the socket is looked for before giving up.
pub const CHECK_SOCKET_ATTEMPTS: u32 = 10;

/// Decides what follows the `looks`-th look for the socket (counted from
/// one): connect if it was found, look again while fewer than the allowed
/// number of looks were made, give up otherwise.
pub fn after_socket_check(looks: u32, found: bool) -> (r: SocketWait)
    ensures
        found ==> r == SocketWait::Connect,
        !found && looks < CHECK_SOCKET_ATTEMPTS ==> r == (SocketWait::Retry {
            after_ms: CHECK_SOCKET_INTERVAL_MS,
        }),
        !found && looks >= CHECK_SOCKET_ATTEMPTS ==> (r matches SocketWait::GiveUp { error }
            && error.reason@ == "Waited too long for mpv socket to appear"@),
{
    if found {
        SocketWait::Connect
    } else if looks < CHECK_SOCKET_ATTEMPTS {
        SocketWait::Retry { after_ms: CHECK_SOCKET_INTERVAL_MS }
    } else {
        SocketWait::GiveUp {
            error: MpvStartupError {
                reason: String::from_str("Waited too long for mpv socket to appear"),
            },
        }
    }
}

/// Judges how the player process ended: an error exactly when it reported a
/// status code other than zero.
pub fn exit_outcome(code: Option<i32>) -> (r: Result<(), ExitError>)
    ensures
        match code {
            Some(c) if c != 0 => r matches Err(e) && e.status_code == c && e.reason@
                == "Non-zero exit code"@,
            _ => r is Ok,
        },
{
    match code {
        Some(c) if c != 0 => Err(
            ExitError { status_code: c, reason: String::from_str("Non-zero exit code") },
        ),
        _ => Ok(()),
    }
}

/// The name of the socket file for the process with the given id.
pub fn socket_file_name(pid: u32) -> (r: String)
    ensures
        r@ == "syncors-"@ + natural_text(pid as nat) + ".socket"@,
{
    let mut s: String = String::from_str("syncors-");
    push_natural(&mut s, pid as u64);
    s.append(".socket");
    s
}

/// The player's command-line argument that names its socket.
pub fn ipc_server_arg(socket_path: &str) -> (r: String)
    ensures
        r@ == "--input-ipc-server="@ + socket_path@,
{
    let mut s: String = String::from_str("--input-ipc-server=");
    s.append(socket_path);
    s
}

/// The arguments the player is started with: the socket it serves, the
/// request to start paused, and what to play.
pub fn player_arguments(socket_path: &str, media: &str) -> (r: Vec<String>)
    ensures
        r@.len() == 3,
        r@[0]@ == "--input-ipc-server="@ + socket_path@,
        r@[1]@ == "--pause"@,
        r@[2]@ == media@,
{
    let mut args: Vec<String> = Vec::new();
    args.push(ipc_server_arg(socket_path));
    args.push(String::from_str("--pause"));
    args.push(String::from_str(media));
    args
}

} // verus!
