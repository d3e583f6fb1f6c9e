//! The timed transformation events a sprite can carry. Each kind family
//! (`Move`, `Fade`, `Rotate`, `Scale`) has exactly two shapes: `Static`, an
//! instantaneous value at one timestamp with the implicit linear easing, and
//! `Dynamic`, an interpolation between a start and an end value over a time
//! range with an explicit easing. The first field of every variant is the
//! nesting depth, rendered as that many extra leading spaces.

use vstd::prelude::*;
use vstd::string::*;
use crate::easing::Easing;
use crate::text::{spaces, spec_int_str, spec_nat_str, push_spaces, push_i32, push_usize, lemma_spaces};

verus! {

/// A 2-D integer position or offset.
#[derive(Clone, Copy, PartialEq, Eq, Structural, Debug)]
pub struct Vec2 {
    pub x: i32,
    pub y: i32,
}

impl Vec2 {
    /// Builds the vector with the two given components.
    pub fn new(x: i32, y: i32) -> (r: Vec2)
        ensures
            r.x == x,
            r.y == y,
    {
        Vec2 { x, y }
    }
}

/// `Fade` event: an opacity change.
#[derive(Clone, Copy, PartialEq, Eq, Structural, Debug)]
pub enum Fade {
    Static(usize, i32, i32),
    Dynamic(usize, Easing, i32, i32, i32, i32),
}

impl Fade {
    /// The nesting depth the event is stamped with.
    pub open spec fn depth_spec(self) -> nat {
        match self {
            Fade::Static(depth, ..) => depth as nat,
            Fade::Dynamic(depth, ..) => depth as nat,
        }
    }

    /// The event's start time: the single timestamp of a static event, the
    /// literal (possibly unordered) start timestamp of a dynamic one.
    pub open spec fn start_spec(self) -> i32 {
        match self {
            Fade::Static(_, time, _) => time,
            Fade::Dynamic(_, _, start_time, ..) => start_time,
        }
    }

    /// The event's end time: the single timestamp of a static event, the
    /// literal (possibly unordered) end timestamp of a dynamic one.
    pub open spec fn end_spec(self) -> i32 {
        match self {
            Fade::Static(_, time, _) => time,
            Fade::Dynamic(_, _, _, end_time, _, _) => end_time,
        }
    }

    /// The same event with its depth replaced by `depth`.
    pub open spec fn with_depth(self, depth: usize) -> Fade {
        match self {
            Fade::Static(_, time, value) => Fade::Static(depth, time, value),
            Fade::Dynamic(_, easing, start_time, end_time, start_value, end_value) => (Fade::Dynamic(
                depth,
                easing,
                start_time,
                end_time,
                start_value,
                end_value,
            )),
        }
    }

    /// The command part of the line, after the indentation: one separator
    /// space, the kind letter, then the comma-separated fields. A static
    /// event leaves the end-time field empty.
    pub open spec fn body_spec(self) -> Seq<char> {
        match self {
            Fade::Static(_, time, value) => (" F,")@ + spec_nat_str(Easing::Linear.id_spec())
                + (",")@ + spec_int_str(time as int) + (",,")@ + spec_int_str(value as int),
            Fade::Dynamic(_, easing, start_time, end_time, start_value, end_value) => (" F,")@
                + spec_nat_str(easing.id_spec()) + (",")@ + spec_int_str(start_time as int) + (",")@
                + spec_int_str(end_time as int) + (",")@ + spec_int_str(start_value as int) + (",")@
                + spec_int_str(end_value as int),
        }
    }

    /// The full rendered line: the depth's indentation, then the body.
    pub open spec fn line_spec(self) -> Seq<char> {
        spaces(self.depth_spec()) + self.body_spec()
    }

    /// Renders the event in the renderer's line grammar.
    pub fn to_line(&self) -> (r: String)
        ensures
            r@ == self.line_spec(),
    {
        let mut s = String::new();
        match self {
            Fade::Static(depth, time, value) => {
                push_spaces(&mut s, *depth);
                s.append(" F,");
                push_usize(&mut s, Easing::Linear.id());
                s.append(",");
                push_i32(&mut s, *time);
                s.append(",,");
                push_i32(&mut s, *value);
            },
            Fade::Dynamic(depth, easing, start_time, end_time, start_value, end_value) => {
                push_spaces(&mut s, *depth);
                s.append(" F,");
                push_usize(&mut s, easing.id());
                s.append(",");
                push_i32(&mut s, *start_time);
                s.append(",");
                push_i32(&mut s, *end_time);
                s.append(",");
                push_i32(&mut s, *start_value);
                s.append(",");
                push_i32(&mut s, *end_value);
            },
        }
        proof {
            assert(s@ =~= self.line_spec());
        }
        s
    }

    /// Overwrites the stored nesting depth; the only mutation an event
    /// admits after construction.
    pub fn set_depth(&mut self, depth: usize)
        ensures
            *final(self) == old(self).with_depth(depth),
    {
        let cur: Fade = *self;
        match cur {
            Fade::Static(_, time, value) => {
                *self = Fade::Static(depth, time, value);
            },
            Fade::Dynamic(_, easing, start_time, end_time, start_value, end_value) => {
                *self = Fade::Dynamic(depth, easing, start_time, end_time, start_value, end_value);
            },
        }
    }

    /// Returns the event's start time, literally as stored.
    pub fn get_start_time(&self) -> (r: i32)
        ensures
            r == self.start_spec(),
    {
        match self {
            Fade::Static(_, time, _) => *time,
            Fade::Dynamic(_, _, start_time, ..) => *start_time,
        }
    }

    /// Returns the event's end time, literally as stored.
    pub fn get_end_time(&self) -> (r: i32)
        ensures
            r == self.end_spec(),
    {
        match self {
            Fade::Static(_, time, _) => *time,
            Fade::Dynamic(_, _, _, end_time, _, _) => *end_time,
        }
    }
}

/// A static event's start and end times both equal its single timestamp;
/// a dynamic event's are its two stored timestamps, returned literally even
/// when the range is unordered or empty.
pub proof fn lemma_fade_times(e: Fade)
    ensures
        e matches Fade::Static(depth, time, value) ==> e.start_spec() == time && e.end_spec()
            == time,
        e matches Fade::Dynamic(depth, easing, start_time, end_time, start_value, end_value)
            ==> e.start_spec() == start_time && e.end_spec() == end_time,
{
}

/// After `set_depth(d)` the rendered line is exactly `d` indentation spaces
/// followed by the depth-independent body, so repeating the call with the
/// same `d` changes nothing.
pub proof fn lemma_fade_depth_indent(e: Fade, d: usize)
    ensures
        e.with_depth(d).line_spec() == spaces(d as nat) + e.body_spec(),
        e.with_depth(d).body_spec() == e.body_spec(),
        e.with_depth(d).with_depth(d) == e.with_depth(d),
        e.with_depth(d).line_spec().len() == d + e.body_spec().len(),
        forall|i: int| 0 <= i < d ==> e.with_depth(d).line_spec()[i] == ' ',
        e.body_spec().len() > 0 && e.body_spec()[0] == ' ',
        e.with_depth(d).line_spec()[d as int] == ' ',
{
    lemma_spaces(d as nat);
    reveal_strlit(" F,");
}

/// Builds a static `Fade` event from `(time, value)`, at depth 0 with the
/// implicit linear easing.
impl From<(i32, i32)> for Fade {
    fn from(t: (i32, i32)) -> (r: Fade) {
        Fade::Static(0, t.0, t.1)
    }
}

impl vstd::std_specs::convert::FromSpecImpl<(i32, i32)> for Fade {
    open spec fn obeys_from_spec() -> bool {
        true
    }

    open spec fn from_spec(t: (i32, i32)) -> Fade {
        Fade::Static(0, t.0, t.1)
    }
}

/// Builds a dynamic `Fade` event from `(start_time, end_time, start_value,
/// end_value)`, at depth 0 with the linear easing.
impl From<(i32, i32, i32, i32)> for Fade {
    fn from(t: (i32, i32, i32, i32)) -> (r: Fade) {
        Fade::Dynamic(0, Easing::Linear, t.0, t.1, t.2, t.3)
    }
}

impl vstd::std_specs::convert::FromSpecImpl<(i32, i32, i32, i32)> for Fade {
    open spec fn obeys_from_spec() -> bool {
        true
    }

    open spec fn from_spec(t: (i32, i32, i32, i32)) -> Fade {
        Fade::Dynamic(0, Easing::Linear, t.0, t.1, t.2, t.3)
    }
}

/// Builds a dynamic `Fade` event from `(easing, start_time, end_time,
/// start_value, end_value)`, at depth 0.
impl From<(Easing, i32, i32, i32, i32)> for Fade {
    fn from(t: (Easing, i32, i32, i32, i32)) -> (r: Fade) {
        Fade::Dynamic(0, t.0, t.1, t.2, t.3, t.4)
    }
}

impl vstd::std_specs::convert::FromSpecImpl<(Easing, i32, i32, i32, i32)> for Fade {
    open spec fn obeys_from_spec() -> bool {
        true
    }

    open spec fn from_spec(t: (Easing, i32, i32, i32, i32)) -> Fade {
        Fade::Dynamic(0, t.0, t.1, t.2, t.3, t.4)
    }
}

/// `Rotate` event: a rotation-angle change.
#[derive(Clone, Copy, PartialEq, Eq, Structural, Debug)]
pub enum Rotate {
    Static(usize, i32, i32),
    Dynamic(usize, Easing, i32, i32, i32, i32),
}

impl Rotate {
    /// The nesting depth the event is stamped with.
    pub open spec fn depth_spec(self) -> nat {
        match self {
            Rotate::Static(depth, ..) => depth as nat,
            Rotate::Dynamic(depth, ..) => depth as nat,
        }
    }

    /// The event's start time: the single timestamp of a static event, the
    /// literal (possibly unordered) start timestamp of a dynamic one.
    pub open spec fn start_spec(self) -> i32 {
        match self {
            Rotate::Static(_, time, _) => time,
            Rotate::Dynamic(_, _, start_time, ..) => start_time,
        }
    }

    /// The event's end time: the single timestamp of a static event, the
    /// literal (possibly unordered) end timestamp of a dynamic one.
    pub open spec fn end_spec(self) -> i32 {
        match self {
            Rotate::Static(_, time, _) => time,
            Rotate::Dynamic(_, _, _, end_time, _, _) => end_time,
        }
    }

    /// The same event with its depth replaced by `depth`.
    pub open spec fn with_depth(self, depth: usize) -> Rotate {
        match self {
            Rotate::Static(_, time, value) => Rotate::Static(depth, time, value),
            Rotate::Dynamic(_, easing, start_time, end_time, start_value, end_value) => (Rotate::Dynamic(
                depth,
                easing,
                start_time,
                end_time,
                start_value,
                end_value,
            )),
        }
    }

    /// The command part of the line, after the indentation: one separator
    /// space, the kind letter, then the comma-separated fields. A static
    /// event leaves the end-time field empty.
    pub open spec fn body_spec(self) -> Seq<char> {
        match self {
            Rotate::Static(_, time, value) => (" R,")@ + spec_nat_str(Easing::Linear.id_spec())
                + (",")@ + spec_int_str(time as int) + (",,")@ + spec_int_str(value as int),
            Rotate::Dynamic(_, easing, start_time, end_time, start_value, end_value) => (" R,")@
                + spec_nat_str(easing.id_spec()) + (",")@ + spec_int_str(start_time as int) + (",")@
                + spec_int_str(end_time as int) + (",")@ + spec_int_str(start_value as int) + (",")@
                + spec_int_str(end_value as int),
        }
    }

    /// The full rendered line: the depth's indentation, then the body.
    pub open spec fn line_spec(self) -> Seq<char> {
        spaces(self.depth_spec()) + self.body_spec()
    }

    /// Renders the event in the renderer's line grammar.
    pub fn to_line(&self) -> (r: String)
        ensures
            r@ == self.line_spec(),
    {
        let mut s = String::new();
        match self {
            Rotate::Static(depth, time, value) => {
                push_spaces(&mut s, *depth);
                s.append(" R,");
                push_usize(&mut s, Easing::Linear.id());
                s.append(",");
                push_i32(&mut s, *time);
                s.append(",,");
                push_i32(&mut s, *value);
            },
            Rotate::Dynamic(depth, easing, start_time, end_time, start_value, end_value) => {
                push_spaces(&mut s, *depth);
                s.append(" R,");
                push_usize(&mut s, easing.id());
                s.append(",");
                push_i32(&mut s, *start_time);
                s.append(",");
                push_i32(&mut s, *end_time);
                s.append(",");
                push_i32(&mut s, *start_value);
                s.append(",");
                push_i32(&mut s, *end_value);
            },
        }
        proof {
            assert(s@ =~= self.line_spec());
        }
        s
    }

    /// Overwrites the stored nesting depth; the only mutation an event
    /// admits after construction.
    pub fn set_depth(&mut self, depth: usize)
        ensures
            *final(self) == old(self).with_depth(depth),
    {
        let cur: Rotate = *self;
        match cur {
            Rotate::Static(_, time, value) => {
                *self = Rotate::Static(depth, time, value);
            },
            Rotate::Dynamic(_, easing, start_time, end_time, start_value, end_value) => {
                *self = Rotate::Dynamic(depth, easing, start_time, end_time, start_value, end_value);
            },
        }
    }

    /// Returns the event's start time, literally as stored.
    pub fn get_start_time(&self) -> (r: i32)
        ensures
            r == self.start_spec(),
    {
        match self {
            Rotate::Static(_, time, _) => *time,
            Rotate::Dynamic(_, _, start_time, ..) => *start_time,
        }
    }

    /// Returns the event's end time, literally as stored.
    pub fn get_end_time(&self) -> (r: i32)
        ensures
            r == self.end_spec(),
    {
        match self {
            Rotate::Static(_, time, _) => *time,
            Rotate::Dynamic(_, _, _, end_time, _, _) => *end_time,
        }
    }
}

/// A static event's start and end times both equal its single timestamp;
/// a dynamic event's are its two stored timestamps, returned literally even
/// when the range is unordered or empty.
pub proof fn lemma_rotate_times(e: Rotate)
    ensures
        e matches Rotate::Static(depth, time, value) ==> e.start_spec() == time && e.end_spec()
            == time,
        e matches Rotate::Dynamic(depth, easing, start_time, end_time, start_value, end_value)
            ==> e.start_spec() == start_time && e.end_spec() == end_time,
{
}

/// After `set_depth(d)` the rendered line is exactly `d` indentation spaces
/// followed by the depth-independent body, so repeating the call with the
/// same `d` changes nothing.
pub proof fn lemma_rotate_depth_indent(e: Rotate, d: usize)
    ensures
        e.with_depth(d).line_spec() == spaces(d as nat) + e.body_spec(),
        e.with_depth(d).body_spec() == e.body_spec(),
        e.with_depth(d).with_depth(d) == e.with_depth(d),
        e.with_depth(d).line_spec().len() == d + e.body_spec().len(),
        forall|i: int| 0 <= i < d ==> e.with_depth(d).line_spec()[i] == ' ',
        e.body_spec().len() > 0 && e.body_spec()[0] == ' ',
        e.with_depth(d).line_spec()[d as int] == ' ',
{
    lemma_spaces(d as nat);
    reveal_strlit(" R,");
}

/// Builds a static `Rotate` event from `(time, value)`, at depth 0 with the
/// implicit linear easing.
impl From<(i32, i32)> for Rotate {
    fn from(t: (i32, i32)) -> (r: Rotate) {
        Rotate::Static(0, t.0, t.1)
    }
}

impl vstd::std_specs::convert::FromSpecImpl<(i32, i32)> for Rotate {
    open spec fn obeys_from_spec() -> bool {
        true
    }

    open spec fn from_spec(t: (i32, i32)) -> Rotate {
        Rotate::Static(0, t.0, t.1)
    }
}

/// Builds a dynamic `Rotate` event from `(start_time, end_time, start_value,
/// end_value)`, at depth 0 with the linear easing.
impl From<(i32, i32, i32, i32)> for Rotate {
    fn from(t: (i32, i32, i32, i32)) -> (r: Rotate) {
        Rotate::Dynamic(0, Easing::Linear, t.0, t.1, t.2, t.3)
    }
}

impl vstd::std_specs::convert::FromSpecImpl<(i32, i32, i32, i32)> for Rotate {
    open spec fn obeys_from_spec() -> bool {
        true
    }

    open spec fn from_spec(t: (i32, i32, i32, i32)) -> Rotate {
        Rotate::Dynamic(0, Easing::Linear, t.0, t.1, t.2, t.3)
    }
}

/// Builds a dynamic `Rotate` event from `(easing, start_time, end_time,
/// start_value, end_value)`, at depth 0.
impl From<(Easing, i32, i32, i32, i32)> for Rotate {
    fn from(t: (Easing, i32, i32, i32, i32)) -> (r: Rotate) {
        Rotate::Dynamic(0, t.0, t.1, t.2, t.3, t.4)
    }
}

impl vstd::std_specs::convert::FromSpecImpl<(Easing, i32, i32, i32, i32)> for Rotate {
    open spec fn obeys_from_spec() -> bool {
        true
    }

    open spec fn from_spec(t: (Easing, i32, i32, i32, i32)) -> Rotate {
        Rotate::Dynamic(0, t.0, t.1, t.2, t.3, t.4)
    }
}

/// `Scale` event: a size-factor change.
#[derive(Clone, Copy, PartialEq, Eq, Structural, Debug)]
pub enum Scale {
    Static(usize, i32, i32),
    Dynamic(usize, Easing, i32, i32, i32, i32),
}

impl Scale {
    /// The nesting depth the event is stamped with.
    pub open spec fn depth_spec(self) -> nat {
        match self {
            Scale::Static(depth, ..) => depth as nat,
            Scale::Dynamic(depth, ..) => depth as nat,
        }
    }

    /// The event's start time: the single timestamp of a static event, the
    /// literal (possibly unordered) start timestamp of a dynamic one.
    pub open spec fn start_spec(self) -> i32 {
        match self {
            Scale::Static(_, time, _) => time,
            Scale::Dynamic(_, _, start_time, ..) => start_time,
        }
    }

    /// The event's end time: the single timestamp of a static event, the
    /// literal (possibly unordered) end timestamp of a dynamic one.
    pub open spec fn end_spec(self) -> i32 {
        match self {
            Scale::Static(_, time, _) => time,
            Scale::Dynamic(_, _, _, end_time, _, _) => end_time,
        }
    }

    /// The same event with its depth replaced by `depth`.
    pub open spec fn with_depth(self, depth: usize) -> Scale {
        match self {
            Scale::Static(_, time, value) => Scale::Static(depth, time, value),
            Scale::Dynamic(_, easing, start_time, end_time, start_value, end_value) => (Scale::Dynamic(
                depth,
                easing,
                start_time,
                end_time,
                start_value,
                end_value,
            )),
        }
    }

    /// The command part of the line, after the indentation: one separator
    /// space, the kind letter, then the comma-separated fields. A static
    /// event leaves the end-time field empty.
    pub open spec fn body_spec(self) -> Seq<char> {
        match self {
            Scale::Static(_, time, value) => (" S,")@ + spec_nat_str(Easing::Linear.id_spec())
                + (",")@ + spec_int_str(time as int) + (",,")@ + spec_int_str(value as int),
            Scale::Dynamic(_, easing, start_time, end_time, start_value, end_value) => (" S,")@
                + spec_nat_str(easing.id_spec()) + (",")@ + spec_int_str(start_time as int) + (",")@
                + spec_int_str(end_time as int) + (",")@ + spec_int_str(start_value as int) + (",")@
                + spec_int_str(end_value as int),
        }
    }

    /// The full rendered line: the depth's indentation, then the body.
    pub open spec fn line_spec(self) -> Seq<char> {
        spaces(self.depth_spec()) + self.body_spec()
    }

    /// Renders the event in the renderer's line grammar.
    pub fn to_line(&self) -> (r: String)
        ensures
            r@ == self.line_spec(),
    {
        let mut s = String::new();
        match self {
            Scale::Static(depth, time, value) => {
                push_spaces(&mut s, *depth);
                s.append(" S,");
                push_usize(&mut s, Easing::Linear.id());
                s.append(",");
                push_i32(&mut s, *time);
                s.append(",,");
                push_i32(&mut s, *value);
            },
            Scale::Dynamic(depth, easing, start_time, end_time, start_value, end_value) => {
                push_spaces(&mut s, *depth);
                s.append(" S,");
                push_usize(&mut s, easing.id());
                s.append(",");
                push_i32(&mut s, *start_time);
                s.append(",");
                push_i32(&mut s, *end_time);
                s.append(",");
                push_i32(&mut s, *start_value);
                s.append(",");
                push_i32(&mut s, *end_value);
            },
        }
        proof {
            assert(s@ =~= self.line_spec());
        }
        s
    }

    /// Overwrites the stored nesting depth; the only mutation an event
    /// admits after construction.
    pub fn set_depth(&mut self, depth: usize)
        ensures
            *final(self) == old(self).with_depth(depth),
    {
        let cur: Scale = *self;
        match cur {
            Scale::Static(_, time, value) => {
                *self = Scale::Static(depth, time, value);
            },
            Scale::Dynamic(_, easing, start_time, end_time, start_value, end_value) => {
                *self = Scale::Dynamic(depth, easing, start_time, end_time, start_value, end_value);
            },
        }
    }

    /// Returns the event's start time, literally as stored.
    pub fn get_start_time(&self) -> (r: i32)
        ensures
            r == self.start_spec(),
    {
        match self {
            Scale::Static(_, time, _) => *time,
            Scale::Dynamic(_, _, start_time, ..) => *start_time,
        }
    }

    /// Returns the event's end time, literally as stored.
    pub fn get_end_time(&self) -> (r: i32)
        ensures
            r == self.end_spec(),
    {
        match self {
            Scale::Static(_, time, _) => *time,
            Scale::Dynamic(_, _, _, end_time, _, _) => *end_time,
        }
    }
}

/// A static event's start and end times both equal its single timestamp;
/// a dynamic event's are its two stored timestamps, returned literally even
/// when the range is unordered or empty.
pub proof fn lemma_scale_times(e: Scale)
    ensures
        e matches Scale::Static(depth, time, value) ==> e.start_spec() == time && e.end_spec()
            == time,
        e matches Scale::Dynamic(depth, easing, start_time, end_time, start_value, end_value)
            ==> e.start_spec() == start_time && e.end_spec() == end_time,
{
}

/// After `set_depth(d)` the rendered line is exactly `d` indentation spaces
/// followed by the depth-independent body, so repeating the call with the
/// same `d` changes nothing.
pub proof fn lemma_scale_depth_indent(e: Scale, d: usize)
    ensures
        e.with_depth(d).line_spec() == spaces(d as nat) + e.body_spec(),
        e.with_depth(d).body_spec() == e.body_spec(),
        e.with_depth(d).with_depth(d) == e.with_depth(d),
        e.with_depth(d).line_spec().len() == d + e.body_spec().len(),
        forall|i: int| 0 <= i < d ==> e.with_depth(d).line_spec()[i] == ' ',
        e.body_spec().len() > 0 && e.body_spec()[0] == ' ',
        e.with_depth(d).line_spec()[d as int] == ' ',
{
    lemma_spaces(d as nat);
    reveal_strlit(" S,");
}

/// Builds a static `Scale` event from `(time, value)`, at depth 0 with the
/// implicit linear easing.
impl From<(i32, i32)> for Scale {
    fn from(t: (i32, i32)) -> (r: Scale) {
        Scale::Static(0, t.0, t.1)
    }
}

impl vstd::std_specs::convert::FromSpecImpl<(i32, i32)> for Scale {
    open spec fn obeys_from_spec() -> bool {
        true
    }

    open spec fn from_spec(t: (i32, i32)) -> Scale {
        Scale::Static(0, t.0, t.1)
    }
}

/// Builds a dynamic `Scale` event from `(start_time, end_time, start_value,
/// end_value)`, at depth 0 with the linear easing.
impl From<(i32, i32, i32, i32)> for Scale {
    fn from(t: (i32, i32, i32, i32)) -> (r: Scale) {
        Scale::Dynamic(0, Easing::Linear, t.0, t.1, t.2, t.3)
    }
}

impl vstd::std_specs::convert::FromSpecImpl<(i32, i32, i32, i32)> for Scale {
    open spec fn obeys_from_spec() -> bool {
        true
    }

    open spec fn from_spec(t: (i32, i32, i32, i32)) -> Scale {
        Scale::Dynamic(0, Easing::Linear, t.0, t.1, t.2, t.3)
    }
}

/// Builds a dynamic `Scale` event from `(easing, start_time, end_time,
/// start_value, end_value)`, at depth 0.
impl From<(Easing, i32, i32, i32, i32)> for Scale {
    fn from(t: (Easing, i32, i32, i32, i32)) -> (r: Scale) {
        Scale::Dynamic(0, t.0, t.1, t.2, t.3, t.4)
    }
}

impl vstd::std_specs::convert::FromSpecImpl<(Easing, i32, i32, i32, i32)> for Scale {
    open spec fn obeys_from_spec() -> bool {
        true
    }

    open spec fn from_spec(t: (Easing, i32, i32, i32, i32)) -> Scale {
        Scale::Dynamic(0, t.0, t.1, t.2, t.3, t.4)
    }
}


/// `Move` event: a position change, carrying 2-D values.
#[derive(Clone, Copy, PartialEq, Eq, Structural, Debug)]
pub enum Move {
    Static(usize, i32, Vec2),
    Dynamic(usize, Easing, i32, i32, Vec2, Vec2),
}

impl Move {
    /// The nesting depth the event is stamped with.
    pub open spec fn depth_spec(self) -> nat {
        match self {
            Move::Static(depth, ..) => depth as nat,
            Move::Dynamic(depth, ..) => depth as nat,
        }
    }

    /// The event's start time: the single timestamp of a static event, the
    /// literal (possibly unordered) start timestamp of a dynamic one.
    pub open spec fn start_spec(self) -> i32 {
        match self {
            Move::Static(_, time, _) => time,
            Move::Dynamic(_, _, start_time, ..) => start_time,
        }
    }

    /// The event's end time: the single timestamp of a static event, the
    /// literal (possibly unordered) end timestamp of a dynamic one.
    pub open spec fn end_spec(self) -> i32 {
        match self {
            Move::Static(_, time, _) => time,
            Move::Dynamic(_, _, _, end_time, _, _) => end_time,
        }
    }

    /// The same event with its depth replaced by `depth`.
    pub open spec fn with_depth(self, depth: usize) -> Move {
        match self {
            Move::Static(_, time, pos) => Move::Static(depth, time, pos),
            Move::Dynamic(_, easing, start_time, end_time, start_pos, end_pos) => (Move::Dynamic(
                depth,
                easing,
                start_time,
                end_time,
                start_pos,
                end_pos,
            )),
        }
    }

    /// The command part of the line, after the indentation: one separator
    /// space, the kind letter, then the comma-separated fields, each 2-D
    /// value contributing its two components. A static event leaves the
    /// end-time field empty.
    pub open spec fn body_spec(self) -> Seq<char> {
        match self {
            Move::Static(_, time, pos) => (" M,")@ + spec_nat_str(Easing::Linear.id_spec())
                + (",")@ + spec_int_str(time as int) + (",,")@ + spec_int_str(pos.x as int) + (",")@
                + spec_int_str(pos.y as int),
            Move::Dynamic(_, easing, start_time, end_time, start_pos, end_pos) => (" M,")@
                + spec_nat_str(easing.id_spec()) + (",")@ + spec_int_str(start_time as int) + (",")@
                + spec_int_str(end_time as int) + (",")@ + spec_int_str(start_pos.x as int) + (",")@
                + spec_int_str(start_pos.y as int) + (",")@ + spec_int_str(end_pos.x as int) + (",")@
                + spec_int_str(end_pos.y as int),
        }
    }

    /// The full rendered line: the depth's indentation, then the body.
    pub open spec fn line_spec(self) -> Seq<char> {
        spaces(self.depth_spec()) + self.body_spec()
    }

    /// Renders the event in the renderer's line grammar.
    #[verifier::rlimit(60)]
    pub fn to_line(&self) -> (r: String)
        ensures
            r@ == self.line_spec(),
    {
        let mut s = String::new();
        match self {
            Move::Static(depth, time, pos) => {
                push_spaces(&mut s, *depth);
                s.append(" M,");
                push_usize(&mut s, Easing::Linear.id());
                s.append(",");
                push_i32(&mut s, *time);
                s.append(",,");
                push_i32(&mut s, pos.x);
                s.append(",");
                push_i32(&mut s, pos.y);
            },
            Move::Dynamic(depth, easing, start_time, end_time, start_pos, end_pos) => {
                push_spaces(&mut s, *depth);
                s.append(" M,");
                push_usize(&mut s, easing.id());
                s.append(",");
                push_i32(&mut s, *start_time);
                s.append(",");
                push_i32(&mut s, *end_time);
                s.append(",");
                push_i32(&mut s, start_pos.x);
                s.append(",");
                push_i32(&mut s, start_pos.y);
                s.append(",");
                push_i32(&mut s, end_pos.x);
                s.append(",");
                push_i32(&mut s, end_pos.y);
            },
        }
        proof {
            assert(s@ =~= self.line_spec());
        }
        s
    }

    /// Overwrites the stored nesting depth; the only mutation an event
    /// admits after construction.
    pub fn set_depth(&mut self, depth: usize)
        ensures
            *final(self) == old(self).with_depth(depth),
    {
        let cur: Move = *self;
        match cur {
            Move::Static(_, time, pos) => {
                *self = Move::Static(depth, time, pos);
            },
            Move::Dynamic(_, easing, start_time, end_time, start_pos, end_pos) => {
                *self = Move::Dynamic(depth, easing, start_time, end_time, start_pos, end_pos);
            },
        }
    }

    /// Returns the event's start time, literally as stored.
    pub fn get_start_time(&self) -> (r: i32)
        ensures
            r == self.start_spec(),
    {
        match self {
            Move::Static(_, time, _) => *time,
            Move::Dynamic(_, _, start_time, ..) => *start_time,
        }
    }

    /// Returns the event's end time, literally as stored.
    pub fn get_end_time(&self) -> (r: i32)
        ensures
            r == self.end_spec(),
    {
        match self {
            Move::Static(_, time, _) => *time,
            Move::Dynamic(_, _, _, end_time, _, _) => *end_time,
        }
    }
}

/// A static event's start and end times both equal its single timestamp;
/// a dynamic event's are its two stored timestamps, returned literally even
/// when the range is unordered or empty.
pub proof fn lemma_move_times(e: Move)
    ensures
        e matches Move::Static(depth, time, pos) ==> e.start_spec() == time && e.end_spec()
            == time,
        e matches Move::Dynamic(depth, easing, start_time, end_time, start_pos, end_pos)
            ==> e.start_spec() == start_time && e.end_spec() == end_time,
{
}

/// After `set_depth(d)` the rendered line is exactly `d` indentation spaces
/// followed by the depth-independent body, so repeating the call with the
/// same `d` changes nothing.
pub proof fn lemma_move_depth_indent(e: Move, d: usize)
    ensures
        e.with_depth(d).line_spec() == spaces(d as nat) + e.body_spec(),
        e.with_depth(d).body_spec() == e.body_spec(),
        e.with_depth(d).with_depth(d) == e.with_depth(d),
        e.with_depth(d).line_spec().len() == d + e.body_spec().len(),
        forall|i: int| 0 <= i < d ==> e.with_depth(d).line_spec()[i] == ' ',
        e.body_spec().len() > 0 && e.body_spec()[0] == ' ',
        e.with_depth(d).line_spec()[d as int] == ' ',
{
    lemma_spaces(d as nat);
    reveal_strlit(" M,");
}

/// Builds a static `Move` event from `(time, position)`, at depth 0 with
/// the implicit linear easing.
impl From<(i32, Vec2)> for Move {
    fn from(t: (i32, Vec2)) -> (r: Move) {
        Move::Static(0, t.0, t.1)
    }
}

impl vstd::std_specs::convert::FromSpecImpl<(i32, Vec2)> for Move {
    open spec fn obeys_from_spec() -> bool {
        true
    }

    open spec fn from_spec(t: (i32, Vec2)) -> Move {
        Move::Static(0, t.0, t.1)
    }
}

/// Builds a static `Move` event from `(time, x, y)`: the two components
/// expand to one 2-D value.
impl From<(i32, i32, i32)> for Move {
    fn from(t: (i32, i32, i32)) -> (r: Move) {
        Move::Static(0, t.0, Vec2 { x: t.1, y: t.2 })
    }
}

impl vstd::std_specs::convert::FromSpecImpl<(i32, i32, i32)> for Move {
    open spec fn obeys_from_spec() -> bool {
        true
    }

    open spec fn from_spec(t: (i32, i32, i32)) -> Move {
        Move::Static(0, t.0, Vec2 { x: t.1, y: t.2 })
    }
}

/// Builds a dynamic `Move` event from `(start_time, end_time, start_pos,
/// end_pos)`, at depth 0 with the linear easing.
impl From<(i32, i32, Vec2, Vec2)> for Move {
    fn from(t: (i32, i32, Vec2, Vec2)) -> (r: Move) {
        Move::Dynamic(0, Easing::Linear, t.0, t.1, t.2, t.3)
    }
}

impl vstd::std_specs::convert::FromSpecImpl<(i32, i32, Vec2, Vec2)> for Move {
    open spec fn obeys_from_spec() -> bool {
        true
    }

    open spec fn from_spec(t: (i32, i32, Vec2, Vec2)) -> Move {
        Move::Dynamic(0, Easing::Linear, t.0, t.1, t.2, t.3)
    }
}

/// Builds a dynamic `Move` event from `(easing, start_time, end_time,
/// start_pos, end_pos)`, at depth 0.
impl From<(Easing, i32, i32, Vec2, Vec2)> for Move {
    fn from(t: (Easing, i32, i32, Vec2, Vec2)) -> (r: Move) {
        Move::Dynamic(0, t.0, t.1, t.2, t.3, t.4)
    }
}

impl vstd::std_specs::convert::FromSpecImpl<(Easing, i32, i32, Vec2, Vec2)> for Move {
    open spec fn obeys_from_spec() -> bool {
        true
    }

    open spec fn from_spec(t: (Easing, i32, i32, Vec2, Vec2)) -> Move {
        Move::Dynamic(0, t.0, t.1, t.2, t.3, t.4)
    }
}

/// Builds a dynamic `Move` event from `(start_time, end_time, start_x,
/// start_y, end_x, end_y)`: each pair of components expands to one 2-D
/// value.
impl From<(i32, i32, i32, i32, i32, i32)> for Move {
    fn from(t: (i32, i32, i32, i32, i32, i32)) -> (r: Move) {
        Move::Dynamic(0, Easing::Linear, t.0, t.1, Vec2 { x: t.2, y: t.3 }, Vec2 { x: t.4, y: t.5 })
    }
}

impl vstd::std_specs::convert::FromSpecImpl<(i32, i32, i32, i32, i32, i32)> for Move {
    open spec fn obeys_from_spec() -> bool {
        true
    }

    open spec fn from_spec(t: (i32, i32, i32, i32, i32, i32)) -> Move {
        Move::Dynamic(0, Easing::Linear, t.0, t.1, Vec2 { x: t.2, y: t.3 }, Vec2 { x: t.4, y: t.5 })
    }
}

/// Builds a dynamic `Move` event from `(easing, start_time, end_time,
/// start_x, start_y, end_x, end_y)`: each pair of components expands to one
/// 2-D value.
impl From<(Easing, i32, i32, i32, i32, i32, i32)> for Move {
    fn from(t: (Easing, i32, i32, i32, i32, i32, i32)) -> (r: Move) {
        Move::Dynamic(0, t.0, t.1, t.2, Vec2 { x: t.3, y: t.4 }, Vec2 { x: t.5, y: t.6 })
    }
}

impl vstd::std_specs::convert::FromSpecImpl<(Easing, i32, i32, i32, i32, i32, i32)> for Move {
    open spec fn obeys_from_spec() -> bool {
        true
    }

    open spec fn from_spec(t: (Easing, i32, i32, i32, i32, i32, i32)) -> Move {
        Move::Dynamic(0, t.0, t.1, t.2, Vec2 { x: t.3, y: t.4 }, Vec2 { x: t.5, y: t.6 })
    }
}

} // verus!
