//! The title protocol for one window, as a state machine.
//!
//! A `Phase` names the request to send next; the reply to it gives the next
//! phase or the window's title. The caller owns the connection: it sends each
//! request, hands the reply back to `on_reply`, and stops at `Step::Done`.
//! Probes, in order: `_NET_WM_NAME` (typed `UTF8_STRING` where the server knows
//! that atom, else `STRING`), `WM_NAME` and `WM_CLASS` (typed `STRING`).

use vstd::prelude::*;
use crate::property::{property_text, read_property_text, value_text};

verus! {

/// The predefined atom of the `STRING` type, known without interning.
pub const ATOM_STRING: u32 = 31;

/// The atom identifier that stands for no atom.
pub const ATOM_NONE: u32 = 0;

/// How many 32-bit units one property fetch asks for at most.
pub const FETCH_LIMIT: u32 = 1024;

/// A property that may hold a window's title, in the order they are probed.
#[derive(Clone, Copy, Debug, PartialEq, Eq, Structural)]
pub enum TitleProperty {
    NetWmName,
    WmName,
    WmClass,
}

/// An atom name that the protocol interns.
#[derive(Clone, Copy, Debug, PartialEq, Eq, Structural)]
pub enum AtomName {
    Utf8String,
    Title(TitleProperty),
}

/// Where the protocol stands for one window.
#[derive(Clone, Copy, Debug, PartialEq, Eq, Structural)]
pub enum Phase {
    /// Interning `UTF8_STRING`, the expected type of the first probe.
    InternTitleType,
    /// Interning the name of `property`; `title_type` is the first probe's type.
    InternProperty { property: TitleProperty, title_type: u32 },
    /// Fetching `property`, whose atom is `atom`.
    FetchProperty { property: TitleProperty, title_type: u32, atom: u32 },
}

/// A request for the display server.
#[derive(Clone, Copy, Debug, PartialEq, Eq, Structural)]
pub enum Request {
    InternAtom { name: AtomName, only_if_exists: bool },
    GetProperty {
        delete: bool,
        window: u32,
        property: u32,
        type_atom: u32,
        long_offset: u32,
        long_length: u32,
    },
}

/// The server's answer to a request; `None` where it answered with an error.
pub enum Reply {
    /// The atom that an `InternAtom` reply carries.
    Atom(Option<u32>),
    /// The value bytes of a `GetProperty` reply.
    Property(Option<Vec<u8>>),
}

/// A reply as the contracts see it.
pub enum ReplyView {
    Atom(Option<u32>),
    Property(Option<Seq<u8>>),
}

impl View for Reply {
    type V = ReplyView;

    open spec fn view(&self) -> ReplyView {
        match self {
            Reply::Atom(a) => ReplyView::Atom(*a),
            Reply::Property(Some(v)) => ReplyView::Property(Some(v@)),
            Reply::Property(None) => ReplyView::Property(None),
        }
    }
}

/// What follows a reply: the next phase, or the window's title (`None`
/// where no probe found one).
pub enum Step {
    Next(Phase),
    Done(Option<String>),
}

/// A step as the contracts see it.
pub enum StepView {
    Next(Phase),
    Done(Option<Seq<char>>),
}

impl View for Step {
    type V = StepView;

    open spec fn view(&self) -> StepView {
        match self {
            Step::Next(p) => StepView::Next(*p),
            Step::Done(Some(s)) => StepView::Done(Some(s@)),
            Step::Done(None) => StepView::Done(None),
        }
    }
}

/// The text of an atom name.
pub open spec fn atom_name_text(n: AtomName) -> Seq<char> {
    match n {
        AtomName::Utf8String => "UTF8_STRING"@,
        AtomName::Title(TitleProperty::NetWmName) => "_NET_WM_NAME"@,
        AtomName::Title(TitleProperty::WmName) => "WM_NAME"@,
        AtomName::Title(TitleProperty::WmClass) => "WM_CLASS"@,
    }
}

impl AtomName {
    /// The name as the server knows it.
    pub fn text(&self) -> (r: &'static str)
        ensures
            r@ == atom_name_text(*self),
    {
        match self {
            AtomName::Utf8String => "UTF8_STRING",
            AtomName::Title(TitleProperty::NetWmName) => "_NET_WM_NAME",
            AtomName::Title(TitleProperty::WmName) => "WM_NAME",
            AtomName::Title(TitleProperty::WmClass) => "WM_CLASS",
        }
    }
}

/// The property probed after `p`, if any.
pub open spec fn next_property(p: TitleProperty) -> Option<TitleProperty> {
    match p {
        TitleProperty::NetWmName => Some(TitleProperty::WmName),
        TitleProperty::WmName => Some(TitleProperty::WmClass),
        TitleProperty::WmClass => None,
    }
}

/// The type that the probe of `p` asks for.
pub open spec fn probe_type(p: TitleProperty, title_type: u32) -> u32 {
    match p {
        TitleProperty::NetWmName => title_type,
        _ => ATOM_STRING,
    }
}

/// The atom an intern reply grants: none on an error or on the `NONE` atom,
/// which the server gives for an unknown name.
pub open spec fn interned_atom(reply: Option<u32>) -> Option<u32> {
    match reply {
        Some(a) => if a == ATOM_NONE {
            None
        } else {
            Some(a)
        },
        None => None,
    }
}

/// The first probe's type: `UTF8_STRING` where it was interned, else `STRING`.
pub open spec fn title_type_of(reply: Option<u32>) -> u32 {
    match interned_atom(reply) {
        Some(a) => a,
        None => ATOM_STRING,
    }
}

/// The atom granted by `reply`, where it is an intern reply.
pub open spec fn atom_of(reply: ReplyView) -> Option<u32> {
    match reply {
        ReplyView::Atom(a) => interned_atom(a),
        ReplyView::Property(_) => None,
    }
}

/// The value bytes of `reply`, where it is a successful fetch reply.
pub open spec fn value_of(reply: ReplyView) -> Option<Seq<u8>> {
    match reply {
        ReplyView::Property(v) => v,
        ReplyView::Atom(_) => None,
    }
}

/// The request sent in `phase` for `window`.
pub open spec fn request_for(window: u32, phase: Phase) -> Request {
    match phase {
        Phase::InternTitleType => Request::InternAtom {
            name: AtomName::Utf8String,
            only_if_exists: true,
        },
        Phase::InternProperty { property, .. } => Request::InternAtom {
            name: AtomName::Title(property),
            only_if_exists: true,
        },
        Phase::FetchProperty { property, title_type, atom } => Request::GetProperty {
            delete: false,
            window,
            property: atom,
            type_atom: probe_type(property, title_type),
            long_offset: 0,
            long_length: FETCH_LIMIT,
        },
    }
}

/// What follows when the probe of `property` found nothing.
pub open spec fn after_absent(property: TitleProperty, title_type: u32) -> StepView {
    match next_property(property) {
        Some(p) => StepView::Next(Phase::InternProperty { property: p, title_type }),
        None => StepView::Done(None),
    }
}

/// What follows the reply `reply` in `phase`. A reply of the wrong kind
/// counts as a failed request.
pub open spec fn next_step(phase: Phase, reply: ReplyView) -> StepView {
    match phase {
        Phase::InternTitleType => StepView::Next(
            Phase::InternProperty {
                property: TitleProperty::NetWmName,
                title_type: match atom_of(reply) {
                    Some(a) => a,
                    None => ATOM_STRING,
                },
            },
        ),
        Phase::InternProperty { property, title_type } => match atom_of(reply) {
            Some(atom) => StepView::Next(Phase::FetchProperty { property, title_type, atom }),
            None => after_absent(property, title_type),
        },
        Phase::FetchProperty { property, title_type, .. } => match property_text(
            value_of(reply),
        ) {
            Some(t) => StepView::Done(Some(t)),
            None => after_absent(property, title_type),
        },
    }
}

/// How many requests at most remain from `phase`, this one included.
pub open spec fn remaining(phase: Phase) -> nat {
    match phase {
        Phase::InternTitleType => 7,
        Phase::InternProperty { property, .. } => match property {
            TitleProperty::NetWmName => 6,
            TitleProperty::WmName => 4,
            TitleProperty::WmClass => 2,
        },
        Phase::FetchProperty { property, .. } => match property {
            TitleProperty::NetWmName => 5,
            TitleProperty::WmName => 3,
            TitleProperty::WmClass => 1,
        },
    }
}

/// The atom granted by an intern reply.
pub fn interned(reply: Option<u32>) -> (r: Option<u32>)
    ensures
        r == interned_atom(reply),
{
    match reply {
        Some(a) => if a == ATOM_NONE {
            None
        } else {
            Some(a)
        },
        None => None,
    }
}

impl TitleProperty {
    /// The property probed after this one, if any.
    pub fn next(&self) -> (r: Option<TitleProperty>)
        ensures
            r == next_property(*self),
    {
        match self {
            TitleProperty::NetWmName => Some(TitleProperty::WmName),
            TitleProperty::WmName => Some(TitleProperty::WmClass),
            TitleProperty::WmClass => None,
        }
    }

    /// The type that this property's probe asks for.
    pub fn expected_type(&self, title_type: u32) -> (r: u32)
        ensures
            r == probe_type(*self, title_type),
    {
        match self {
            TitleProperty::NetWmName => title_type,
            _ => ATOM_STRING,
        }
    }
}

fn absent(property: TitleProperty, title_type: u32) -> (r: Step)
    ensures
        r@ == after_absent(property, title_type),
{
    match property.next() {
        Some(p) => Step::Next(Phase::InternProperty { property: p, title_type }),
        None => Step::Done(None),
    }
}

impl Phase {
    /// The phase a window's resolution starts in.
    pub fn start() -> (r: Phase)
        ensures
            r == Phase::InternTitleType,
    {
        Phase::InternTitleType
    }

    /// The request to send in this phase for `window`.
    pub fn request(&self, window: u32) -> (r: Request)
        ensures
            r == request_for(window, *self),
    {
        match *self {
            Phase::InternTitleType => Request::InternAtom {
                name: AtomName::Utf8String,
                only_if_exists: true,
            },
            Phase::InternProperty { property, .. } => Request::InternAtom {
                name: AtomName::Title(property),
                only_if_exists: true,
            },
            Phase::FetchProperty { property, title_type, atom } => Request::GetProperty {
                delete: false,
                window,
                property: atom,
                type_atom: property.expected_type(title_type),
                long_offset: 0,
                long_length: FETCH_LIMIT,
            },
        }
    }

    /// What follows the server's reply to this phase's request.
    pub fn on_reply(&self, reply: Reply) -> (r: Step)
        ensures
            r@ == next_step(*self, reply@),
            r matches Step::Next(p) ==> remaining(p) < remaining(*self),
    {
        match *self {
            Phase::InternTitleType => {
                let title_type = match reply {
                    Reply::Atom(a) => match interned(a) {
                        Some(t) => t,
                        None => ATOM_STRING,
                    },
                    Reply::Property(_) => ATOM_STRING,
                };
                Step::Next(Phase::InternProperty { property: TitleProperty::NetWmName, title_type })
            },
            Phase::InternProperty { property, title_type } => {
                let atom = match reply {
                    Reply::Atom(a) => interned(a),
                    Reply::Property(_) => None,
                };
                match atom {
                    Some(atom) => Step::Next(Phase::FetchProperty { property, title_type, atom }),
                    None => absent(property, title_type),
                }
            },
            Phase::FetchProperty { property, title_type, .. } => {
                let value = match reply {
                    Reply::Property(v) => v,
                    Reply::Atom(_) => None,
                };
                match read_property_text(value) {
                    Some(t) => Step::Done(Some(t)),
                    None => absent(property, title_type),
                }
            },
        }
    }
}

/// A display server as the protocol sees it: what interning each name
/// answers, and what fetching a property of a window with an expected type
/// answers (`None` for an error reply).
pub struct DisplayModel {
    pub intern: spec_fn(AtomName) -> Option<u32>,
    pub fetch: spec_fn(u32, u32, u32) -> Option<Seq<u8>>,
}

/// The model's answer to `req`.
pub open spec fn answer(server: DisplayModel, req: Request) -> ReplyView {
    match req {
        Request::InternAtom { name, .. } => ReplyView::Atom((server.intern)(name)),
        Request::GetProperty { window, property, type_atom, .. } => ReplyView::Property(
            (server.fetch)(window, property, type_atom),
        ),
    }
}

/// The title that driving the machine from `phase` against `server` ends with.
pub open spec fn run(server: DisplayModel, window: u32, phase: Phase) -> Option<Seq<char>>
    decreases remaining(phase),
{
    match next_step(phase, answer(server, request_for(window, phase))) {
        StepView::Done(t) => t,
        StepView::Next(p) => run(server, window, p),
    }
}

/// The title that resolving `window` against `server` yields.
pub open spec fn resolved_title(server: DisplayModel, window: u32) -> Option<Seq<char>> {
    run(server, window, Phase::InternTitleType)
}

/// What the probe of `property` alone finds on `window`.
pub open spec fn probe(
    server: DisplayModel,
    window: u32,
    property: TitleProperty,
    title_type: u32,
) -> Option<Seq<char>> {
    match interned_atom((server.intern)(AtomName::Title(property))) {
        Some(a) => property_text((server.fetch)(window, a, probe_type(property, title_type))),
        None => None,
    }
}

/// The first of the three probes that finds a title, in their order.
pub open spec fn first_title(server: DisplayModel, window: u32) -> Option<Seq<char>> {
    let title_type = title_type_of((server.intern)(AtomName::Utf8String));
    let net_wm_name = probe(server, window, TitleProperty::NetWmName, title_type);
    let wm_name = probe(server, window, TitleProperty::WmName, title_type);
    let wm_class = probe(server, window, TitleProperty::WmClass, title_type);
    if net_wm_name is Some {
        net_wm_name
    } else if wm_name is Some {
        wm_name
    } else {
        wm_class
    }
}

/// Probe precedence: against any server, a window's title is what
/// `_NET_WM_NAME` gives, else what `WM_NAME` gives, else what `WM_CLASS`
/// gives, else there is none.
pub proof fn precedence(server: DisplayModel, window: u32)
    ensures
        resolved_title(server, window) == first_title(server, window),
{
    reveal_with_fuel(run, 3);
    let title_type = title_type_of((server.intern)(AtomName::Utf8String));
    let p0 = Phase::InternProperty { property: TitleProperty::NetWmName, title_type };
    let p1 = Phase::InternProperty { property: TitleProperty::WmName, title_type };
    let p2 = Phase::InternProperty { property: TitleProperty::WmClass, title_type };
    assert(run(server, window, p2) == probe(server, window, TitleProperty::WmClass, title_type));
    assert(run(server, window, p1) == first_of(
        probe(server, window, TitleProperty::WmName, title_type),
        run(server, window, p2),
    ));
    assert(run(server, window, p0) == first_of(
        probe(server, window, TitleProperty::NetWmName, title_type),
        run(server, window, p1),
    ));
}

/// `a` where it holds a title, else `b`.
pub open spec fn first_of(a: Option<Seq<char>>, b: Option<Seq<char>>) -> Option<Seq<char>> {
    if a is Some {
        a
    } else {
        b
    }
}

/// Where the server does not know `UTF8_STRING`, `_NET_WM_NAME` is asked for
/// as `STRING`, and a non-empty value stored that way is the title.
pub proof fn title_type_fallback(server: DisplayModel, window: u32, atom: u32, value: Seq<u8>)
    requires
        interned_atom((server.intern)(AtomName::Utf8String)) is None,
        interned_atom((server.intern)(AtomName::Title(TitleProperty::NetWmName))) == Some(atom),
        (server.fetch)(window, atom, ATOM_STRING) == Some(value),
        value.len() > 0,
    ensures
        resolved_title(server, window) == Some(value_text(value)),
{
    precedence(server, window);
}

} // verus!
