//! Sprites: identity and placement metadata, the per-kind event groups, and
//! the running aggregate time window, with rendering into the script text.

use vstd::prelude::*;
use vstd::string::*;
use crate::event::{Move, Fade, Rotate, Scale, Vec2};
use crate::layer::Layer;
use crate::origin::Origin;
use crate::text::{spec_int_str, push_i32};

verus! {

/// The rendered lines of a group of `Move` events, in stored order, each
/// followed by a line terminator.
pub open spec fn move_lines(s: Seq<Move>) -> Seq<char>
    decreases s.len(),
{
    if s.len() == 0 {
        Seq::empty()
    } else {
        move_lines(s.drop_last()) + s.last().line_spec() + ("\n")@
    }
}

/// The rendered lines of a group of `Fade` events, in stored order, each
/// followed by a line terminator.
pub open spec fn fade_lines(s: Seq<Fade>) -> Seq<char>
    decreases s.len(),
{
    if s.len() == 0 {
        Seq::empty()
    } else {
        fade_lines(s.drop_last()) + s.last().line_spec() + ("\n")@
    }
}

/// The rendered lines of a group of `Rotate` events, in stored order, each
/// followed by a line terminator.
pub open spec fn rotate_lines(s: Seq<Rotate>) -> Seq<char>
    decreases s.len(),
{
    if s.len() == 0 {
        Seq::empty()
    } else {
        rotate_lines(s.drop_last()) + s.last().line_spec() + ("\n")@
    }
}

/// The rendered lines of a group of `Scale` events, in stored order, each
/// followed by a line terminator.
pub open spec fn scale_lines(s: Seq<Scale>) -> Seq<char>
    decreases s.len(),
{
    if s.len() == 0 {
        Seq::empty()
    } else {
        scale_lines(s.drop_last()) + s.last().line_spec() + ("\n")@
    }
}

/// A sprite's events, one insertion-ordered group per kind.
pub struct EventCollection {
    pub move_: Vec<Move>,
    pub fade_: Vec<Fade>,
    pub rotate_: Vec<Rotate>,
    pub scale_: Vec<Scale>,
}

impl EventCollection {
    /// How many events the collection holds, over all four groups.
    pub open spec fn count_spec(self) -> nat {
        self.move_@.len() + self.fade_@.len() + self.rotate_@.len() + self.scale_@.len()
    }

    /// The whole textual body: the groups in the fixed order `Move`,
    /// `Fade`, `Rotate`, `Scale`, each group's lines in insertion order,
    /// an empty group contributing nothing.
    pub open spec fn text_spec(self) -> Seq<char> {
        move_lines(self.move_@) + fade_lines(self.fade_@) + rotate_lines(self.rotate_@)
            + scale_lines(self.scale_@)
    }

    /// Every event's start time is at least `s`.
    pub open spec fn starts_at_least(self, s: i32) -> bool {
        &&& forall|i: int|
            0 <= i < self.move_@.len() ==> (#[trigger] self.move_@[i]).start_spec() >= s
        &&& forall|i: int|
            0 <= i < self.fade_@.len() ==> (#[trigger] self.fade_@[i]).start_spec() >= s
        &&& forall|i: int|
            0 <= i < self.rotate_@.len() ==> (#[trigger] self.rotate_@[i]).start_spec() >= s
        &&& forall|i: int|
            0 <= i < self.scale_@.len() ==> (#[trigger] self.scale_@[i]).start_spec() >= s
    }

    /// Some event's start time is exactly `s`.
    pub open spec fn some_start_is(self, s: i32) -> bool {
        ||| exists|i: int|
            0 <= i < self.move_@.len() && (#[trigger] self.move_@[i]).start_spec() == s
        ||| exists|i: int|
            0 <= i < self.fade_@.len() && (#[trigger] self.fade_@[i]).start_spec() == s
        ||| exists|i: int|
            0 <= i < self.rotate_@.len() && (#[trigger] self.rotate_@[i]).start_spec() == s
        ||| exists|i: int|
            0 <= i < self.scale_@.len() && (#[trigger] self.scale_@[i]).start_spec() == s
    }

    /// Every event's end time is at most `e`.
    pub open spec fn ends_at_most(self, e: i32) -> bool {
        &&& forall|i: int| 0 <= i < self.move_@.len() ==> (#[trigger] self.move_@[i]).end_spec() <= e
        &&& forall|i: int| 0 <= i < self.fade_@.len() ==> (#[trigger] self.fade_@[i]).end_spec() <= e
        &&& forall|i: int|
            0 <= i < self.rotate_@.len() ==> (#[trigger] self.rotate_@[i]).end_spec() <= e
        &&& forall|i: int|
            0 <= i < self.scale_@.len() ==> (#[trigger] self.scale_@[i]).end_spec() <= e
    }

    /// Some event's end time is exactly `e`.
    pub open spec fn some_end_is(self, e: i32) -> bool {
        ||| exists|i: int| 0 <= i < self.move_@.len() && (#[trigger] self.move_@[i]).end_spec() == e
        ||| exists|i: int| 0 <= i < self.fade_@.len() && (#[trigger] self.fade_@[i]).end_spec() == e
        ||| exists|i: int|
            0 <= i < self.rotate_@.len() && (#[trigger] self.rotate_@[i]).end_spec() == e
        ||| exists|i: int|
            0 <= i < self.scale_@.len() && (#[trigger] self.scale_@[i]).end_spec() == e
    }

    /// Builds an empty collection.
    pub fn new() -> (r: EventCollection)
        ensures
            r.move_@ == Seq::<Move>::empty(),
            r.fade_@ == Seq::<Fade>::empty(),
            r.rotate_@ == Seq::<Rotate>::empty(),
            r.scale_@ == Seq::<Scale>::empty(),
            r.count_spec() == 0,
    {
        let r = EventCollection {
            move_: Vec::<Move>::new(),
            fade_: Vec::<Fade>::new(),
            rotate_: Vec::<Rotate>::new(),
            scale_: Vec::<Scale>::new(),
        };
        proof {
            assert(r.move_@ =~= Seq::<Move>::empty());
            assert(r.fade_@ =~= Seq::<Fade>::empty());
            assert(r.rotate_@ =~= Seq::<Rotate>::empty());
            assert(r.scale_@ =~= Seq::<Scale>::empty());
        }
        r
    }

    /// Renders the whole body text, group by group in the fixed kind
    /// order, one line per event.
    pub fn to_str(&self) -> (r: String)
        ensures
            r@ == self.text_spec(),
    {
        let mut s = String::new();
        let mut i: usize = 0;
        proof {
            assert(s@ =~= move_lines(self.move_@.take(0)));
        }
        while i < self.move_.len()
            invariant
                i <= self.move_@.len(),
                s@ == move_lines(self.move_@.take(i as int)),
            decreases self.move_@.len() - i,
        {
            let line = self.move_[i].to_line();
            s.append(line.as_str());
            s.append("\n");
            i = i + 1;
            proof {
                assert(self.move_@.take(i as int).drop_last() =~= self.move_@.take(i - 1));
                assert(s@ =~= move_lines(self.move_@.take(i as int)));
            }
        }
        proof {
            assert(self.move_@.take(self.move_@.len() as int) =~= self.move_@);
        }
        let ghost done_move: Seq<char> = move_lines(self.move_@);
        let mut j: usize = 0;
        proof {
            assert(s@ =~= done_move + fade_lines(self.fade_@.take(0)));
        }
        while j < self.fade_.len()
            invariant
                j <= self.fade_@.len(),
                s@ == done_move + fade_lines(self.fade_@.take(j as int)),
                done_move == move_lines(self.move_@),
            decreases self.fade_@.len() - j,
        {
            let line = self.fade_[j].to_line();
            s.append(line.as_str());
            s.append("\n");
            j = j + 1;
            proof {
                assert(self.fade_@.take(j as int).drop_last() =~= self.fade_@.take(j - 1));
                assert(s@ =~= done_move + fade_lines(self.fade_@.take(j as int)));
            }
        }
        proof {
            assert(self.fade_@.take(self.fade_@.len() as int) =~= self.fade_@);
        }
        let ghost done_fade: Seq<char> = done_move + fade_lines(self.fade_@);
        let mut k: usize = 0;
        proof {
            assert(s@ =~= done_fade + rotate_lines(self.rotate_@.take(0)));
        }
        while k < self.rotate_.len()
            invariant
                k <= self.rotate_@.len(),
                s@ == done_fade + rotate_lines(self.rotate_@.take(k as int)),
                done_fade == move_lines(self.move_@) + fade_lines(self.fade_@),
            decreases self.rotate_@.len() - k,
        {
            let line = self.rotate_[k].to_line();
            s.append(line.as_str());
            s.append("\n");
            k = k + 1;
            proof {
                assert(self.rotate_@.take(k as int).drop_last() =~= self.rotate_@.take(k - 1));
                assert(s@ =~= done_fade + rotate_lines(self.rotate_@.take(k as int)));
            }
        }
        proof {
            assert(self.rotate_@.take(self.rotate_@.len() as int) =~= self.rotate_@);
        }
        let ghost done_rotate: Seq<char> = done_fade + rotate_lines(self.rotate_@);
        let mut m: usize = 0;
        proof {
            assert(s@ =~= done_rotate + scale_lines(self.scale_@.take(0)));
        }
        while m < self.scale_.len()
            invariant
                m <= self.scale_@.len(),
                s@ == done_rotate + scale_lines(self.scale_@.take(m as int)),
                done_rotate == move_lines(self.move_@) + fade_lines(self.fade_@) + rotate_lines(
                    self.rotate_@,
                ),
            decreases self.scale_@.len() - m,
        {
            let line = self.scale_[m].to_line();
            s.append(line.as_str());
            s.append("\n");
            m = m + 1;
            proof {
                assert(self.scale_@.take(m as int).drop_last() =~= self.scale_@.take(m - 1));
                assert(s@ =~= done_rotate + scale_lines(self.scale_@.take(m as int)));
            }
        }
        proof {
            assert(self.scale_@.take(self.scale_@.len() as int) =~= self.scale_@);
            assert(s@ =~= self.text_spec());
        }
        s
    }
}


/// The window start after folding in an event whose start is `s`: `s`
/// itself when no window is recorded yet, else the smaller of the two.
pub open spec fn fold_start(cur: Option<i32>, s: i32) -> i32 {
    match cur {
        Option::None => s,
        Option::Some(c) => if s < c {
            s
        } else {
            c
        },
    }
}

/// The window end after folding in an event whose end is `e`: `e` itself
/// when no window is recorded yet, else the larger of the two.
pub open spec fn fold_end(cur: Option<i32>, e: i32) -> i32 {
    match cur {
        Option::None => e,
        Option::Some(c) => if c < e {
            e
        } else {
            c
        },
    }
}

/// Construction input for a sprite: the asset path, and optionally an
/// anchor origin and a base position; absent fields take the documented
/// defaults (`Centre`, the screen centre `(320, 240)`).
pub struct SpriteConfig {
    pub path: String,
    pub origin: Option<Origin>,
    pub pos: Option<Vec2>,
}

/// A positioned image asset with its accumulated transformation events and
/// running aggregate time window.
pub struct Sprite {
    pub events: EventCollection,
    pub current_depth: usize,
    pub path: String,
    pub pos: Vec2,
    pub layer: Layer,
    pub origin: Origin,
    pub start_time: Option<i32>,
    pub end_time: Option<i32>,
}

impl Sprite {
    /// The recorded window is exactly the span of the stored events: both
    /// bounds are absent precisely while no event has been appended, and
    /// otherwise each bound is attained by some event and bounds them all.
    pub open spec fn wf(self) -> bool {
        &&& match self.start_time {
            Option::None => self.events.count_spec() == 0,
            Option::Some(s) => self.events.starts_at_least(s) && self.events.some_start_is(s),
        }
        &&& match self.end_time {
            Option::None => self.events.count_spec() == 0,
            Option::Some(e) => self.events.ends_at_most(e) && self.events.some_end_is(e),
        }
    }

    /// The canonical constructor: fills in the documented defaults for
    /// every field the configuration leaves out. The layer always starts
    /// as `Background` and the nesting depth at 0; no event is recorded.
    pub fn from_config(config: SpriteConfig) -> (r: Sprite)
        ensures
            r.path@ == config.path@,
            r.origin == (match config.origin {
                Option::Some(o) => o,
                Option::None => Origin::Centre,
            }),
            r.pos == (match config.pos {
                Option::Some(p) => p,
                Option::None => Vec2 { x: 320, y: 240 },
            }),
            r.layer == Layer::Background,
            r.current_depth == 0,
            r.start_time is None,
            r.end_time is None,
            r.events.count_spec() == 0,
            r.wf(),
    {
        let origin = match config.origin {
            Option::Some(o) => o,
            Option::None => Origin::Centre,
        };
        let pos = match config.pos {
            Option::Some(p) => p,
            Option::None => Vec2 { x: 320, y: 240 },
        };
        Sprite {
            events: EventCollection::new(),
            current_depth: 0,
            path: config.path,
            pos,
            layer: Layer::Background,
            origin,
            start_time: Option::None,
            end_time: Option::None,
        }
    }

    /// Builds a sprite from the asset path alone, with every default.
    pub fn new(path: &str) -> (r: Sprite)
        ensures
            r.path@ == path@,
            r.origin == Origin::Centre,
            r.pos == (Vec2 { x: 320, y: 240 }),
            r.layer == Layer::Background,
            r.current_depth == 0,
            r.start_time is None,
            r.end_time is None,
            r.events.count_spec() == 0,
            r.wf(),
    {
        Sprite::from_config(
            SpriteConfig { path: path.to_owned(), origin: Option::None, pos: Option::None },
        )
    }

    /// Folds one event's literal `(start, end)` pair into the running
    /// window: the start can only move down, the end only up, and either
    /// bound is seeded by the first event.
    fn process_event(&mut self, event_start: i32, event_end: i32)
        ensures
            final(self).start_time == Some(fold_start(old(self).start_time, event_start)),
            final(self).end_time == Some(fold_end(old(self).end_time, event_end)),
            final(self).events == old(self).events,
            final(self).current_depth == old(self).current_depth,
            final(self).path == old(self).path,
            final(self).pos == old(self).pos,
            final(self).layer == old(self).layer,
            final(self).origin == old(self).origin,
    {
        match self.start_time {
            Option::Some(sprite_start) => {
                if event_start < sprite_start {
                    self.start_time = Option::Some(event_start);
                }
            },
            Option::None => {
                self.start_time = Option::Some(event_start);
            },
        }
        match self.end_time {
            Option::Some(sprite_end) => {
                if sprite_end < event_end {
                    self.end_time = Option::Some(event_end);
                }
            },
            Option::None => {
                self.end_time = Option::Some(event_end);
            },
        }
    }

    /// Appends a `Move` event: folds its literal time pair into the
    /// window, stamps it with the sprite's current nesting depth, and
    /// stores it at the back of the `Move` group.
    pub fn move_(&mut self, args: Move)
        ensures
            final(self).events.move_@ == old(self).events.move_@.push(
                args.with_depth(old(self).current_depth),
            ),
            final(self).events.fade_@ == old(self).events.fade_@,
            final(self).events.rotate_@ == old(self).events.rotate_@,
            final(self).events.scale_@ == old(self).events.scale_@,
            final(self).start_time == Some(fold_start(old(self).start_time, args.start_spec())),
            final(self).end_time == Some(fold_end(old(self).end_time, args.end_spec())),
            final(self).current_depth == old(self).current_depth,
            final(self).path == old(self).path,
            final(self).pos == old(self).pos,
            final(self).layer == old(self).layer,
            final(self).origin == old(self).origin,
            old(self).wf() ==> final(self).wf(),
    {
        let mut event = args;
        self.process_event(event.get_start_time(), event.get_end_time());
        event.set_depth(self.current_depth);
        self.events.move_.push(event);
        proof {
            if old(self).wf() {
                lemma_wf_after_move(
                    *old(self),
                    *self,
                    args.with_depth(old(self).current_depth),
                );
            }
        }
    }

    /// Appends a `Fade` event: folds its literal time pair into the
    /// window, stamps it with the sprite's current nesting depth, and
    /// stores it at the back of the `Fade` group.
    pub fn fade_(&mut self, args: Fade)
        ensures
            final(self).events.fade_@ == old(self).events.fade_@.push(
                args.with_depth(old(self).current_depth),
            ),
            final(self).events.move_@ == old(self).events.move_@,
            final(self).events.rotate_@ == old(self).events.rotate_@,
            final(self).events.scale_@ == old(self).events.scale_@,
            final(self).start_time == Some(fold_start(old(self).start_time, args.start_spec())),
            final(self).end_time == Some(fold_end(old(self).end_time, args.end_spec())),
            final(self).current_depth == old(self).current_depth,
            final(self).path == old(self).path,
            final(self).pos == old(self).pos,
            final(self).layer == old(self).layer,
            final(self).origin == old(self).origin,
            old(self).wf() ==> final(self).wf(),
    {
        let mut event = args;
        self.process_event(event.get_start_time(), event.get_end_time());
        event.set_depth(self.current_depth);
        self.events.fade_.push(event);
        proof {
            if old(self).wf() {
                lemma_wf_after_fade(
                    *old(self),
                    *self,
                    args.with_depth(old(self).current_depth),
                );
            }
        }
    }

    /// Appends a `Rotate` event: folds its literal time pair into the
    /// window, stamps it with the sprite's current nesting depth, and
    /// stores it at the back of the `Rotate` group.
    pub fn rotate_(&mut self, args: Rotate)
        ensures
            final(self).events.rotate_@ == old(self).events.rotate_@.push(
                args.with_depth(old(self).current_depth),
            ),
            final(self).events.move_@ == old(self).events.move_@,
            final(self).events.fade_@ == old(self).events.fade_@,
            final(self).events.scale_@ == old(self).events.scale_@,
            final(self).start_time == Some(fold_start(old(self).start_time, args.start_spec())),
            final(self).end_time == Some(fold_end(old(self).end_time, args.end_spec())),
            final(self).current_depth == old(self).current_depth,
            final(self).path == old(self).path,
            final(self).pos == old(self).pos,
            final(self).layer == old(self).layer,
            final(self).origin == old(self).origin,
            old(self).wf() ==> final(self).wf(),
    {
        let mut event = args;
        self.process_event(event.get_start_time(), event.get_end_time());
        event.set_depth(self.current_depth);
        self.events.rotate_.push(event);
        proof {
            if old(self).wf() {
                lemma_wf_after_rotate(
                    *old(self),
                    *self,
                    args.with_depth(old(self).current_depth),
                );
            }
        }
    }

    /// Appends a `Scale` event: folds its literal time pair into the
    /// window, stamps it with the sprite's current nesting depth, and
    /// stores it at the back of the `Scale` group.
    pub fn scale_(&mut self, args: Scale)
        ensures
            final(self).events.scale_@ == old(self).events.scale_@.push(
                args.with_depth(old(self).current_depth),
            ),
            final(self).events.move_@ == old(self).events.move_@,
            final(self).events.fade_@ == old(self).events.fade_@,
            final(self).events.rotate_@ == old(self).events.rotate_@,
            final(self).start_time == Some(fold_start(old(self).start_time, args.start_spec())),
            final(self).end_time == Some(fold_end(old(self).end_time, args.end_spec())),
            final(self).current_depth == old(self).current_depth,
            final(self).path == old(self).path,
            final(self).pos == old(self).pos,
            final(self).layer == old(self).layer,
            final(self).origin == old(self).origin,
            old(self).wf() ==> final(self).wf(),
    {
        let mut event = args;
        self.process_event(event.get_start_time(), event.get_end_time());
        event.set_depth(self.current_depth);
        self.events.scale_.push(event);
        proof {
            if old(self).wf() {
                lemma_wf_after_scale(
                    *old(self),
                    *self,
                    args.with_depth(old(self).current_depth),
                );
            }
        }
    }

    /// Returns the initial X position of the sprite; this is not a
    /// function of time.
    pub fn get_x(&self) -> (r: i32)
        ensures
            r == self.pos.x,
    {
        self.pos.x
    }

    /// Returns the initial Y position of the sprite; this is not a
    /// function of time.
    pub fn get_y(&self) -> (r: i32)
        ensures
            r == self.pos.y,
    {
        self.pos.y
    }

    /// Returns the recorded window start: `None` until an event has been
    /// appended, then the minimum of the appended events' start times.
    pub fn start_time(&self) -> (r: Option<i32>)
        ensures
            r == self.start_time,
    {
        self.start_time
    }

    /// Returns the recorded window end: `None` until an event has been
    /// appended, then the maximum of the appended events' end times.
    pub fn end_time(&self) -> (r: Option<i32>)
        ensures
            r == self.end_time,
    {
        self.end_time
    }

    /// The sprite's header line, ending in a line terminator: the fixed
    /// `Sprite` token, the layer and origin names, the quoted path, and
    /// the two position components, comma-separated.
    pub open spec fn header_spec(self) -> Seq<char> {
        ("Sprite,")@ + self.layer.name_spec() + (",")@ + self.origin.name_spec() + (",\"")@
            + self.path@ + ("\",")@ + spec_int_str(self.pos.x as int) + (",")@ + spec_int_str(
            self.pos.y as int,
        ) + ("\n")@
    }

    /// The whole rendered sprite: the header line, then the event body.
    pub open spec fn render_spec(self) -> Seq<char> {
        self.header_spec() + self.events.text_spec()
    }

    /// Renders the sprite: its header line followed by every event line,
    /// grouped by kind.
    pub fn to_str(&self) -> (r: String)
        ensures
            r@ == self.render_spec(),
    {
        let mut s = String::new();
        s.append("Sprite,");
        s.append(self.layer.name());
        s.append(",");
        s.append(self.origin.name());
        s.append(",\"");
        s.append(self.path.as_str());
        s.append("\",");
        push_i32(&mut s, self.pos.x);
        s.append(",");
        push_i32(&mut s, self.pos.y);
        s.append("\n");
        let body = self.events.to_str();
        s.append(body.as_str());
        proof {
            assert(s@ =~= self.render_spec());
        }
        s
    }

    /// Replaces the sprite's layer; everything else is untouched.
    pub fn set_layer(&mut self, layer: Layer)
        ensures
            final(self).layer == layer,
            final(self).events == old(self).events,
            final(self).current_depth == old(self).current_depth,
            final(self).path == old(self).path,
            final(self).pos == old(self).pos,
            final(self).origin == old(self).origin,
            final(self).start_time == old(self).start_time,
            final(self).end_time == old(self).end_time,
            old(self).wf() ==> final(self).wf(),
    {
        self.layer = layer;
    }
}

/// The recorded window of a well-formed sprite is exactly the span of its
/// events: both bounds are absent precisely while the sprite holds no
/// event; otherwise the start bounds every event's start time from below
/// and is attained by one of them, and symmetrically for the end.
pub proof fn lemma_window(s: Sprite)
    requires
        s.wf(),
    ensures
        (s.start_time is None) <==> s.events.count_spec() == 0,
        (s.end_time is None) <==> s.events.count_spec() == 0,
        s.start_time matches Some(t) ==> s.events.starts_at_least(t) && s.events.some_start_is(t),
        s.end_time matches Some(t) ==> s.events.ends_at_most(t) && s.events.some_end_is(t),
{
}


/// Pushing one `Move` event whose literal times were folded into the
/// window keeps a sprite well formed.
proof fn lemma_wf_after_move(pre: Sprite, post: Sprite, ev: Move)
    requires
        pre.wf(),
        post.events.move_@ == pre.events.move_@.push(ev),
        post.events.fade_@ == pre.events.fade_@,
        post.events.rotate_@ == pre.events.rotate_@,
        post.events.scale_@ == pre.events.scale_@,
        post.start_time == Some(fold_start(pre.start_time, ev.start_spec())),
        post.end_time == Some(fold_end(pre.end_time, ev.end_spec())),
    ensures
        post.wf(),
{
    let es = ev.start_spec();
    let ee = ev.end_spec();
    let s2 = fold_start(pre.start_time, es);
    let e2 = fold_end(pre.end_time, ee);
    let pn = pre.events.move_@.len() as int;
    assert forall|i: int| 0 <= i < post.events.move_@.len() implies (#[trigger] post.events.move_@[i]).start_spec() >= s2 by {
        if i < pn {
            assert(post.events.move_@[i] == pre.events.move_@[i]);
        } else {
            assert(post.events.move_@[i] == ev);
        }
    }
    assert forall|i: int| 0 <= i < post.events.move_@.len() implies (#[trigger] post.events.move_@[i]).end_spec() <= e2 by {
        if i < pn {
            assert(post.events.move_@[i] == pre.events.move_@[i]);
        } else {
            assert(post.events.move_@[i] == ev);
        }
    }
    match pre.start_time {
        Option::None => {
            assert(post.events.move_@[pn] == ev);
            assert(post.events.some_start_is(s2));
        },
        Option::Some(sp) => {
            if es < sp {
                assert(post.events.move_@[pn] == ev);
                assert(post.events.some_start_is(s2));
            } else {
                assert(pre.events.some_start_is(sp));
                if exists|i: int| 0 <= i < pre.events.move_@.len() && (#[trigger] pre.events.move_@[i]).start_spec() == sp {
                    let i = choose|i: int| 0 <= i < pre.events.move_@.len() && (#[trigger] pre.events.move_@[i]).start_spec() == sp;
                    assert(post.events.move_@[i] == pre.events.move_@[i]);
                    assert(post.events.some_start_is(s2));
                } else {
                    assert(post.events.some_start_is(s2));
                }
            }
        },
    }
    match pre.end_time {
        Option::None => {
            assert(post.events.move_@[pn] == ev);
            assert(post.events.some_end_is(e2));
        },
        Option::Some(ep) => {
            if ep < ee {
                assert(post.events.move_@[pn] == ev);
                assert(post.events.some_end_is(e2));
            } else {
                assert(pre.events.some_end_is(ep));
                if exists|i: int| 0 <= i < pre.events.move_@.len() && (#[trigger] pre.events.move_@[i]).end_spec() == ep {
                    let i = choose|i: int| 0 <= i < pre.events.move_@.len() && (#[trigger] pre.events.move_@[i]).end_spec() == ep;
                    assert(post.events.move_@[i] == pre.events.move_@[i]);
                    assert(post.events.some_end_is(e2));
                } else {
                    assert(post.events.some_end_is(e2));
                }
            }
        },
    }
}

/// Pushing one `Fade` event whose literal times were folded into the
/// window keeps a sprite well formed.
proof fn lemma_wf_after_fade(pre: Sprite, post: Sprite, ev: Fade)
    requires
        pre.wf(),
        post.events.fade_@ == pre.events.fade_@.push(ev),
        post.events.move_@ == pre.events.move_@,
        post.events.rotate_@ == pre.events.rotate_@,
        post.events.scale_@ == pre.events.scale_@,
        post.start_time == Some(fold_start(pre.start_time, ev.start_spec())),
        post.end_time == Some(fold_end(pre.end_time, ev.end_spec())),
    ensures
        post.wf(),
{
    let es = ev.start_spec();
    let ee = ev.end_spec();
    let s2 = fold_start(pre.start_time, es);
    let e2 = fold_end(pre.end_time, ee);
    let pn = pre.events.fade_@.len() as int;
    assert forall|i: int| 0 <= i < post.events.fade_@.len() implies (#[trigger] post.events.fade_@[i]).start_spec() >= s2 by {
        if i < pn {
            assert(post.events.fade_@[i] == pre.events.fade_@[i]);
        } else {
            assert(post.events.fade_@[i] == ev);
        }
    }
    assert forall|i: int| 0 <= i < post.events.fade_@.len() implies (#[trigger] post.events.fade_@[i]).end_spec() <= e2 by {
        if i < pn {
            assert(post.events.fade_@[i] == pre.events.fade_@[i]);
        } else {
            assert(post.events.fade_@[i] == ev);
        }
    }
    match pre.start_time {
        Option::None => {
            assert(post.events.fade_@[pn] == ev);
            assert(post.events.some_start_is(s2));
        },
        Option::Some(sp) => {
            if es < sp {
                assert(post.events.fade_@[pn] == ev);
                assert(post.events.some_start_is(s2));
            } else {
                assert(pre.events.some_start_is(sp));
                if exists|i: int| 0 <= i < pre.events.fade_@.len() && (#[trigger] pre.events.fade_@[i]).start_spec() == sp {
                    let i = choose|i: int| 0 <= i < pre.events.fade_@.len() && (#[trigger] pre.events.fade_@[i]).start_spec() == sp;
                    assert(post.events.fade_@[i] == pre.events.fade_@[i]);
                    assert(post.events.some_start_is(s2));
                } else {
                    assert(post.events.some_start_is(s2));
                }
            }
        },
    }
    match pre.end_time {
        Option::None => {
            assert(post.events.fade_@[pn] == ev);
            assert(post.events.some_end_is(e2));
        },
        Option::Some(ep) => {
            if ep < ee {
                assert(post.events.fade_@[pn] == ev);
                assert(post.events.some_end_is(e2));
            } else {
                assert(pre.events.some_end_is(ep));
                if exists|i: int| 0 <= i < pre.events.fade_@.len() && (#[trigger] pre.events.fade_@[i]).end_spec() == ep {
                    let i = choose|i: int| 0 <= i < pre.events.fade_@.len() && (#[trigger] pre.events.fade_@[i]).end_spec() == ep;
                    assert(post.events.fade_@[i] == pre.events.fade_@[i]);
                    assert(post.events.some_end_is(e2));
                } else {
                    assert(post.events.some_end_is(e2));
                }
            }
        },
    }
}

/// Pushing one `Rotate` event whose literal times were folded into the
/// window keeps a sprite well formed.
proof fn lemma_wf_after_rotate(pre: Sprite, post: Sprite, ev: Rotate)
    requires
        pre.wf(),
        post.events.rotate_@ == pre.events.rotate_@.push(ev),
        post.events.move_@ == pre.events.move_@,
        post.events.fade_@ == pre.events.fade_@,
        post.events.scale_@ == pre.events.scale_@,
        post.start_time == Some(fold_start(pre.start_time, ev.start_spec())),
        post.end_time == Some(fold_end(pre.end_time, ev.end_spec())),
    ensures
        post.wf(),
{
    let es = ev.start_spec();
    let ee = ev.end_spec();
    let s2 = fold_start(pre.start_time, es);
    let e2 = fold_end(pre.end_time, ee);
    let pn = pre.events.rotate_@.len() as int;
    assert forall|i: int| 0 <= i < post.events.rotate_@.len() implies (#[trigger] post.events.rotate_@[i]).start_spec() >= s2 by {
        if i < pn {
            assert(post.events.rotate_@[i] == pre.events.rotate_@[i]);
        } else {
            assert(post.events.rotate_@[i] == ev);
        }
    }
    assert forall|i: int| 0 <= i < post.events.rotate_@.len() implies (#[trigger] post.events.rotate_@[i]).end_spec() <= e2 by {
        if i < pn {
            assert(post.events.rotate_@[i] == pre.events.rotate_@[i]);
        } else {
            assert(post.events.rotate_@[i] == ev);
        }
    }
    match pre.start_time {
        Option::None => {
            assert(post.events.rotate_@[pn] == ev);
            assert(post.events.some_start_is(s2));
        },
        Option::Some(sp) => {
            if es < sp {
                assert(post.events.rotate_@[pn] == ev);
                assert(post.events.some_start_is(s2));
            } else {
                assert(pre.events.some_start_is(sp));
                if exists|i: int| 0 <= i < pre.events.rotate_@.len() && (#[trigger] pre.events.rotate_@[i]).start_spec() == sp {
                    let i = choose|i: int| 0 <= i < pre.events.rotate_@.len() && (#[trigger] pre.events.rotate_@[i]).start_spec() == sp;
                    assert(post.events.rotate_@[i] == pre.events.rotate_@[i]);
                    assert(post.events.some_start_is(s2));
                } else {
                    assert(post.events.some_start_is(s2));
                }
            }
        },
    }
    match pre.end_time {
        Option::None => {
            assert(post.events.rotate_@[pn] == ev);
            assert(post.events.some_end_is(e2));
        },
        Option::Some(ep) => {
            if ep < ee {
                assert(post.events.rotate_@[pn] == ev);
                assert(post.events.some_end_is(e2));
            } else {
                assert(pre.events.some_end_is(ep));
                if exists|i: int| 0 <= i < pre.events.rotate_@.len() && (#[trigger] pre.events.rotate_@[i]).end_spec() == ep {
                    let i = choose|i: int| 0 <= i < pre.events.rotate_@.len() && (#[trigger] pre.events.rotate_@[i]).end_spec() == ep;
                    assert(post.events.rotate_@[i] == pre.events.rotate_@[i]);
                    assert(post.events.some_end_is(e2));
                } else {
                    assert(post.events.some_end_is(e2));
                }
            }
        },
    }
}

/// Pushing one `Scale` event whose literal times were folded into the
/// window keeps a sprite well formed.
proof fn lemma_wf_after_scale(pre: Sprite, post: Sprite, ev: Scale)
    requires
        pre.wf(),
        post.events.scale_@ == pre.events.scale_@.push(ev),
        post.events.move_@ == pre.events.move_@,
        post.events.fade_@ == pre.events.fade_@,
        post.events.rotate_@ == pre.events.rotate_@,
        post.start_time == Some(fold_start(pre.start_time, ev.start_spec())),
        post.end_time == Some(fold_end(pre.end_time, ev.end_spec())),
    ensures
        post.wf(),
{
    let es = ev.start_spec();
    let ee = ev.end_spec();
    let s2 = fold_start(pre.start_time, es);
    let e2 = fold_end(pre.end_time, ee);
    let pn = pre.events.scale_@.len() as int;
    assert forall|i: int| 0 <= i < post.events.scale_@.len() implies (#[trigger] post.events.scale_@[i]).start_spec() >= s2 by {
        if i < pn {
            assert(post.events.scale_@[i] == pre.events.scale_@[i]);
        } else {
            assert(post.events.scale_@[i] == ev);
        }
    }
    assert forall|i: int| 0 <= i < post.events.scale_@.len() implies (#[trigger] post.events.scale_@[i]).end_spec() <= e2 by {
        if i < pn {
            assert(post.events.scale_@[i] == pre.events.scale_@[i]);
        } else {
            assert(post.events.scale_@[i] == ev);
        }
    }
    match pre.start_time {
        Option::None => {
            assert(post.events.scale_@[pn] == ev);
            assert(post.events.some_start_is(s2));
        },
        Option::Some(sp) => {
            if es < sp {
                assert(post.events.scale_@[pn] == ev);
                assert(post.events.some_start_is(s2));
            } else {
                assert(pre.events.some_start_is(sp));
                if exists|i: int| 0 <= i < pre.events.scale_@.len() && (#[trigger] pre.events.scale_@[i]).start_spec() == sp {
                    let i = choose|i: int| 0 <= i < pre.events.scale_@.len() && (#[trigger] pre.events.scale_@[i]).start_spec() == sp;
                    assert(post.events.scale_@[i] == pre.events.scale_@[i]);
                    assert(post.events.some_start_is(s2));
                } else {
                    assert(post.events.some_start_is(s2));
                }
            }
        },
    }
    match pre.end_time {
        Option::None => {
            assert(post.events.scale_@[pn] == ev);
            assert(post.events.some_end_is(e2));
        },
        Option::Some(ep) => {
            if ep < ee {
                assert(post.events.scale_@[pn] == ev);
                assert(post.events.some_end_is(e2));
            } else {
                assert(pre.events.some_end_is(ep));
                if exists|i: int| 0 <= i < pre.events.scale_@.len() && (#[trigger] pre.events.scale_@[i]).end_spec() == ep {
                    let i = choose|i: int| 0 <= i < pre.events.scale_@.len() && (#[trigger] pre.events.scale_@[i]).end_spec() == ep;
                    assert(post.events.scale_@[i] == pre.events.scale_@[i]);
                    assert(post.events.some_end_is(e2));
                } else {
                    assert(post.events.some_end_is(e2));
                }
            }
        },
    }
}
} // verus!
