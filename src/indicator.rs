//! The redraw state machine: which layout is active, and when the icon must be
//! drawn again.
use vstd::prelude::*;
use crate::cache::IconCache;

verus! {

/// What the display connection reports, as far as the indicator cares.
#[derive(Clone, Copy, PartialEq, Eq, Structural, Debug)]
pub enum IndicatorEvent {
    /// The keyboard switched to the layout group with this index.
    LayoutChanged(u32),
    /// Part of the window needs repainting; `count` more such events follow in
    /// the same batch.
    Expose(u16),
    /// Anything else.
    Other,
}

/// The active group index after `ev`, when `active` was the active one before.
pub open spec fn next_active(active: u32, ev: IndicatorEvent) -> u32 {
    match ev {
        IndicatorEvent::LayoutChanged(k) => k,
        _ => active,
    }
}

/// Whether `ev` asks for the icon to be drawn again, when `active` was the
/// active group before it: a change to another group does, and so does the last
/// expose event of a batch.
pub open spec fn needs_redraw(active: u32, ev: IndicatorEvent) -> bool {
    match ev {
        IndicatorEvent::LayoutChanged(k) => k != active,
        IndicatorEvent::Expose(count) => count == 0,
        IndicatorEvent::Other => false,
    }
}

/// The icon to show for group `k`: none when `k` is past the end of the names,
/// or when the cache has no icon for that name.
pub open spec fn icon_for(names: Seq<Seq<char>>, icons: Map<Seq<char>, Seq<u8>>, k: int) -> Option<
    Seq<u8>,
> {
    if 0 <= k < names.len() && icons.contains_key(names[k]) {
        Some(icons[names[k]])
    } else {
        None
    }
}

/// A notification of the group already shown asks for no redraw and leaves the
/// state as it is; one of another group asks for one redraw and makes that group
/// the active one.
pub proof fn layout_change_redraws_once(active: u32, k: u32)
    ensures
        active == k ==> !needs_redraw(active, IndicatorEvent::LayoutChanged(k)) && next_active(
            active,
            IndicatorEvent::LayoutChanged(k),
        ) == active,
        active != k ==> needs_redraw(active, IndicatorEvent::LayoutChanged(k)) && next_active(
            active,
            IndicatorEvent::LayoutChanged(k),
        ) == k,
{
}

/// The layout names, their icons and the active group.
pub struct Indicator {
    names: Vec<String>,
    cache: IconCache,
    active: u32,
}

impl Indicator {
    pub closed spec fn spec_names(&self) -> Seq<Seq<char>> {
        self.names@.map_values(|s: String| s@)
    }

    pub closed spec fn spec_icons(&self) -> Map<Seq<char>, Seq<u8>> {
        self.cache@
    }

    pub closed spec fn spec_active(&self) -> u32 {
        self.active
    }

    pub closed spec fn wf(&self) -> bool {
        self.cache.wf()
    }

    /// An indicator showing group `active` of `names`, with the icons of `cache`.
    pub fn new(names: Vec<String>, cache: IconCache, active: u32) -> (r: Indicator)
        requires
            cache.wf(),
        ensures
            r.wf(),
            r.spec_names() == names@.map_values(|s: String| s@),
            r.spec_icons() == cache@,
            r.spec_active() == active,
    {
        Indicator { names, cache, active }
    }

    /// The active group index.
    pub fn active(&self) -> (r: u32)
        ensures
            r == self.spec_active(),
    {
        self.active
    }

    /// Takes in one event; returns whether the icon must be drawn again.
    pub fn handle_event(&mut self, ev: IndicatorEvent) -> (redraw: bool)
        requires
            old(self).wf(),
        ensures
            final(self).wf(),
            redraw == needs_redraw(old(self).spec_active(), ev),
            final(self).spec_active() == next_active(old(self).spec_active(), ev),
            final(self).spec_names() == old(self).spec_names(),
            final(self).spec_icons() == old(self).spec_icons(),
    {
        match ev {
            IndicatorEvent::LayoutChanged(k) => {
                if k != self.active {
                    self.active = k;
                    true
                } else {
                    false
                }
            },
            IndicatorEvent::Expose(count) => count == 0,
            IndicatorEvent::Other => false,
        }
    }

    /// The icon of the active group. There is none when the index lies past the
    /// known names, or when the cache holds no icon for the name.
    pub fn current_icon(&self) -> (r: Option<&Vec<u8>>)
        requires
            self.wf(),
        ensures
            match r {
                Some(v) => icon_for(self.spec_names(), self.spec_icons(), self.spec_active() as int)
                    == Some(v@),
                None => icon_for(
                    self.spec_names(),
                    self.spec_icons(),
                    self.spec_active() as int,
                ) is None,
            },
            self.spec_active() >= self.spec_names().len() ==> r is None,
    {
        let k = self.active as usize;
        if k < self.names.len() {
            self.cache.get(&self.names[k])
        } else {
            None
        }
    }
}

} // verus!
