//! Render events.

use vstd::prelude::*;
use vstd::pervasive::unreached;
use crate::generic_event::{EventId, GenericEvent, Payload, RENDER};

verus! {

/// The arguments of a render event.
#[derive(Copy, Clone, Debug, PartialEq, Eq, Structural)]
pub struct RenderArgs {
    /// Extrapolated time in seconds, used for animation: the IEEE 754 bit
    /// pattern of a 64-bit floating point number.
    pub ext_dt: u64,
    /// The width of the rendered area.
    pub width: u32,
    /// The height of the rendered area.
    pub height: u32,
}

impl Payload {
    /// The arguments of a render payload; `None` for every other kind.
    pub open spec fn render(&self) -> Option<RenderArgs> {
        match *self {
            Payload::Render(args) => Some(args),
            _ => None,
        }
    }
}

/// When the next frame should be rendered.
pub trait RenderEvent: GenericEvent {
    /// Creates a render event.
    fn from_render_args(args: &RenderArgs, old_event: &Self) -> (r: Option<Self>)
        ensures
            r == Self::made_from(Payload::Render(*args), old_event),
            r is Some <==> Self::carries(EventId::Render),
            r matches Some(e) ==> e.payload().render() == Some(*args),
    {
        proof {
            Self::made_from_carries(Payload::Render(*args), old_event);
        }
        Self::from_args(&Payload::Render(*args), old_event)
    }

    /// Calls closure if this is a render event.
    fn render<U, F: FnOnce(&RenderArgs) -> U>(&self, f: F) -> (r: Option<U>)
        requires
            self.payload().render() matches Some(v) ==> f.requires((&v,)),
        ensures
            match self.payload().render() {
                Some(v) => r matches Some(u) && f.ensures((&v,), u),
                None => r is None,
            },
    {
        if self.event_id() != RENDER {
            return None;
        }
        let visit = |args: &Payload| -> (r: Option<U>)
            requires
                args.render() is Some,
                f.requires((&args.render().unwrap(),)),
            ensures
                r is Some,
                f.ensures((&args.render().unwrap(),), r.unwrap()),
            {
                match args {
                    Payload::Render(args) => Some(f(args)),
                    _ => unreached(),
                }
            };
        self.with_args(visit)
    }

    /// Returns render arguments.
    fn render_args(&self) -> (r: Option<RenderArgs>)
        ensures
            r == self.payload().render(),
    {
        self.render(|args: &RenderArgs| -> (v: RenderArgs) ensures v == *args { *args })
    }
}

impl<T: GenericEvent> RenderEvent for T {}

/// Reading a render event gives back what it was made of.
pub proof fn render_reads_what_was_made<E: GenericEvent>(args: RenderArgs, old_event: &E)
    ensures
        E::made_from(Payload::Render(args), old_event) matches Some(e) ==> e.payload().render()
            == Some(args),
{
    E::made_from_carries(Payload::Render(args), old_event);
}

/// An event made of a payload of another kind reads as no render event.
pub proof fn render_of_other_kind_is_none<E: GenericEvent>(args: Payload, old_event: &E)
    requires
        args.id() != EventId::Render,
    ensures
        E::made_from(args, old_event) matches Some(e) ==> e.payload().render() is None,
{
    E::made_from_carries(args, old_event);
}

} // verus!
