//! Application state management.
use vstd::prelude::*;
use super::filter::{FilterView, PacketFilter, spec_matches, spec_parse, filter_text};
use super::packet_info::{info_of, PacketInfo, PacketInfoView};
use crate::ethernet::{EthernetPacket, PacketHeader, Timestamp};
use crate::text::{chars_of, trim, trim_bounds};
use super::input::{clamped_cursor, edit_text, input_edit, keyevent_to_input_request, spec_input_request, InputRequest, KeyCode};
use vstd::string::StrSliceExecFns;

verus! {

/// Main application state.
#[derive(Debug)]
pub struct App {
    /// All captured packets (unfiltered)
    pub all_packets: Vec<PacketInfo>,
    /// Filtered packets for display
    pub packets: Vec<PacketInfo>,
    /// Currently selected packet index (in filtered list)
    pub selected: usize,
    /// The row that the packet table highlights
    pub table_selected: Option<usize>,
    /// Scroll offset for the packet details view
    pub details_scroll: u16,
    /// Scroll offset for the hex dump view
    pub hex_scroll: u16,
    /// Whether the application should quit
    pub should_quit: bool,
    /// Current packet filter
    pub filter: Option<PacketFilter>,
    /// Filter input string (when editing)
    pub filter_input: String,
    /// Cursor position in the filter input, in characters
    pub filter_cursor: usize,
    /// Whether filter input mode is active
    pub filter_mode: bool,
    /// Error message from last filter parse attempt
    pub filter_error: Option<String>,
}

/// The summaries of a list of packets.
pub open spec fn infos_view(v: Seq<PacketInfo>) -> Seq<PacketInfoView> {
    v.map_values(|p: PacketInfo| p@)
}

/// The conditions of an optional filter.
pub open spec fn filter_view(f: Option<PacketFilter>) -> Option<FilterView> {
    match f {
        Some(f) => Some(f@),
        None => None,
    }
}

/// The packets of `all` that an optional filter lets through, in capture order.
pub open spec fn visible(all: Seq<PacketInfoView>, f: Option<FilterView>) -> Seq<PacketInfoView> {
    match f {
        Some(f) => all.filter(|p: PacketInfoView| spec_matches(f, p)),
        None => all,
    }
}

/// Capturing one more packet shows it exactly when the filter lets it through.
pub proof fn lemma_visible_push(all: Seq<PacketInfoView>, p: PacketInfoView, f: Option<FilterView>)
    ensures
        visible(all.push(p), f) == (if (f matches Some(g) && !spec_matches(g, p)) {
            visible(all, f)
        } else {
            visible(all, f).push(p)
        }),
{
    reveal_with_fuel(Seq::filter, 1);
    assert(all.push(p).drop_last() =~= all);
    assert(all.push(p).last() == p);
}

/// Whatever the operations did, a consistent state shows exactly the captured packets that
/// the active filter lets through: each shown packet passes the filter and is one of the
/// captured packets, and each captured packet that passes it is shown.
pub proof fn law_shown_packets_match_filter(app: App)
    requires
        app.wf(),
    ensures
        forall|i: int| 0 <= i < app.packets@.len() ==> (app.filter matches Some(f) ==> spec_matches(
            f@,
            #[trigger] app.packets@[i]@,
        )),
        forall|i: int| 0 <= i < app.packets@.len() ==> infos_view(app.all_packets@).contains(
            #[trigger] app.packets@[i]@,
        ),
        forall|i: int| 0 <= i < app.all_packets@.len() && (app.filter matches Some(f) ==> spec_matches(
            f@,
            #[trigger] app.all_packets@[i]@,
        )) ==> infos_view(app.packets@).contains(app.all_packets@[i]@),
{
    let all = infos_view(app.all_packets@);
    let shown = infos_view(app.packets@);
    match app.filter {
        Some(f) => {
            let pred = |p: PacketInfoView| spec_matches(f@, p);
            assert forall|i: int| 0 <= i < app.packets@.len() implies spec_matches(
                f@,
                #[trigger] app.packets@[i]@,
            ) && all.contains(app.packets@[i]@) by {
                assert(shown[i] == app.packets@[i]@);
                all.lemma_filter_contains_rev(pred, shown[i]);
                all.lemma_filter_pred(pred, i);
            }
            assert forall|i: int| 0 <= i < app.all_packets@.len() && spec_matches(
                f@,
                #[trigger] app.all_packets@[i]@,
            ) implies shown.contains(app.all_packets@[i]@) by {
                assert(all[i] == app.all_packets@[i]@);
                all.lemma_filter_contains(pred, i);
            }
        },
        None => {
            assert forall|i: int| 0 <= i < app.packets@.len() implies all.contains(
                #[trigger] app.packets@[i]@,
            ) by {
                assert(shown[i] == app.packets@[i]@);
            }
            assert forall|i: int| 0 <= i < app.all_packets@.len() implies shown.contains(
                #[trigger] app.all_packets@[i]@,
            ) by {
                assert(all[i] == app.all_packets@[i]@);
            }
        },
    }
}

impl App {
    /// The state is consistent: the shown list is exactly the captured packets that the
    /// active filter lets through, in capture order; the selection lies in the shown list
    /// (or is 0) and the table highlights it.
    pub open spec fn wf(&self) -> bool {
        &&& (self.filter matches Some(f) ==> f@.wf())
        &&& infos_view(self.packets@) == visible(infos_view(self.all_packets@), filter_view(self.filter))
        &&& (self.selected == 0 || self.selected < self.packets@.len())
        &&& self.table_selected == Some(self.selected)
    }

    /// Create a new application state.
    pub fn new() -> (app: Self)
        ensures
            app.wf(),
            app.all_packets@.len() == 0,
            app.packets@.len() == 0,
            app.selected == 0,
            app.details_scroll == 0,
            app.hex_scroll == 0,
            !app.should_quit,
            app.filter is None,
            app.filter_input@.len() == 0,
            !app.filter_mode,
            app.filter_error is None,
    {
        let app = Self {
            all_packets: Vec::new(),
            packets: Vec::new(),
            selected: 0,
            table_selected: Some(0),
            details_scroll: 0,
            hex_scroll: 0,
            should_quit: false,
            filter: None,
            filter_input: String::new(),
            filter_cursor: 0,
            filter_mode: false,
            filter_error: None,
        };
        assert(infos_view(app.packets@) =~= seq![]);
        assert(infos_view(app.all_packets@) =~= seq![]);
        app
    }

    /// Add a new packet to the list; it is shown when the active filter lets it through.
    pub fn add_packet(&mut self, packet: PacketInfo)
        requires
            old(self).wf(),
        ensures
            final(self).wf(),
            final(self).packet_added(*old(self), packet@),
    {
        let ghost all0 = infos_view(self.all_packets@);
        let ghost shown0 = infos_view(self.packets@);
        let copy = packet.clone();
        self.all_packets.push(copy);
        assert(infos_view(self.all_packets@) =~= all0.push(packet@));
        assert(infos_view(self.all_packets@).drop_last() =~= all0);
        proof {
            lemma_visible_push(all0, packet@, filter_view(self.filter));
        }
        let keep = match &self.filter {
            Some(filter) => filter.matches(&packet),
            None => true,
        };
        if keep {
            self.packets.push(packet);
            assert(infos_view(self.packets@) =~= shown0.push(packet@));
        }
    }

    /// The state after `add_packet(v)`: `v` joins the captured packets, and the shown ones
    /// when the active filter lets it through; nothing else changes.
    pub open spec fn packet_added(self, old: App, v: PacketInfoView) -> bool {
        &&& infos_view(self.all_packets@) == infos_view(old.all_packets@).push(v)
        &&& infos_view(self.packets@) == (if (old.filter matches Some(f) && !spec_matches(f@, v)) {
            infos_view(old.packets@)
        } else {
            infos_view(old.packets@).push(v)
        })
        &&& self.unchanged_but_packets(old)
    }

    /// Everything but the two packet lists is as in `old`.
    pub open spec fn unchanged_but_packets(self, old: App) -> bool {
        &&& self.selected == old.selected
        &&& self.table_selected == old.table_selected
        &&& self.details_scroll == old.details_scroll
        &&& self.hex_scroll == old.hex_scroll
        &&& self.should_quit == old.should_quit
        &&& filter_view(self.filter) == filter_view(old.filter)
        &&& self.filter_input@ == old.filter_input@
        &&& self.filter_cursor == old.filter_cursor
        &&& self.filter_mode == old.filter_mode
        &&& self.filter_error == old.filter_error
    }

    /// Decodes a captured frame and, when it decodes, adds its summary as packet `number`.
    /// Gives the number for the next packet: `number + 1` after a frame that decoded, `number`
    /// again after one that did not (which changes nothing).
    pub fn add_frame<'a>(&mut self, header: &PacketHeader, raw: &'a [u8], number: usize) -> (next: usize)
        requires
            old(self).wf(),
            i64::MIN <= header.ts.tv_usec * 1000 <= i64::MAX,
            number < usize::MAX,
        ensures
            final(self).wf(),
            EthernetPacket::spec_error(*header, raw@) is Some ==> next == number && infos_view(
                final(self).all_packets@,
            ) == infos_view(old(self).all_packets@) && infos_view(final(self).packets@) == infos_view(
                old(self).packets@,
            ) && final(self).unchanged_but_packets(*old(self)),
            EthernetPacket::spec_error(*header, raw@) is None ==> next == number + 1 && exists|
                p: EthernetPacket<'a>,
            |
                #![trigger info_of(p, number)]
                Timestamp::spec_from_timeval(header.ts) == Some(p.timestamp@) && p.decoded_from(
                    p.timestamp,
                    raw@,
                ) && final(self).packet_added(*old(self), info_of(p, number)),
    {
        match EthernetPacket::new(header, raw) {
            Ok(packet) => {
                let info = PacketInfo::from_ethernet(&packet, number);
                self.add_packet(info);
                number + 1
            },
            Err(_) => number,
        }
    }

    /// Apply the active filter to all captured packets, and select the first one.
    pub fn apply_filter(&mut self)
        requires
            old(self).filter matches Some(f) ==> f@.wf(),
        ensures
            final(self).wf(),
            infos_view(final(self).packets@) == visible(infos_view(old(self).all_packets@), filter_view(old(self).filter)),
            infos_view(final(self).all_packets@) == infos_view(old(self).all_packets@),
            final(self).selected == 0,
            final(self).details_scroll == 0,
            final(self).hex_scroll == 0,
            final(self).should_quit == old(self).should_quit,
            filter_view(final(self).filter) == filter_view(old(self).filter),
            final(self).filter_input@ == old(self).filter_input@,
            final(self).filter_cursor == old(self).filter_cursor,
            final(self).filter_mode == old(self).filter_mode,
            final(self).filter_error == old(self).filter_error,
    {
        let ghost all = infos_view(self.all_packets@);
        let ghost fv = filter_view(self.filter);
        let mut shown: Vec<PacketInfo> = Vec::new();
        let mut i: usize = 0;
        while i < self.all_packets.len()
            invariant
                i <= self.all_packets@.len(),
                all == infos_view(self.all_packets@),
                fv == filter_view(self.filter),
                self.filter matches Some(f) ==> f@.wf(),
                infos_view(shown@) == visible(all.take(i as int), fv),
            decreases self.all_packets@.len() - i,
        {
            let ghost before = infos_view(shown@);
            assert(all.take(i + 1).drop_last() =~= all.take(i as int));
            assert(all.take(i + 1).last() == self.all_packets@[i as int]@);
            proof {
                lemma_visible_push(all.take(i as int), self.all_packets@[i as int]@, fv);
                assert(all.take(i as int).push(self.all_packets@[i as int]@) =~= all.take(i + 1));
            }
            let keep = match &self.filter {
                Some(filter) => filter.matches(&self.all_packets[i]),
                None => true,
            };
            if keep {
                let copy = self.all_packets[i].clone();
                shown.push(copy);
                assert(infos_view(shown@) =~= before.push(copy@));
            }
            i = i + 1;
            assert(infos_view(shown@) == visible(all.take(i as int), fv));
        }
        assert(all.take(i as int) =~= all);
        self.packets = shown;
        self.selected = 0;
        self.table_selected = Some(0);
        self.details_scroll = 0;
        self.hex_scroll = 0;
    }
}

/// The index that moving the selection `sel` by `offset` aims at, saturating at both ends.
pub open spec fn moved_index(sel: usize, offset: isize) -> int {
    if offset < 0 {
        if sel + offset < 0 {
            0
        } else {
            sel + offset
        }
    } else {
        if sel + offset > usize::MAX {
            usize::MAX as int
        } else {
            sel + offset
        }
    }
}

impl App {
    /// The state after a filter change: the shown list recomputed, the first packet selected,
    /// the other fields as before.
    pub open spec fn refiltered(self, old: App) -> bool {
        &&& infos_view(self.packets@) == visible(infos_view(self.all_packets@), filter_view(self.filter))
        &&& infos_view(self.all_packets@) == infos_view(old.all_packets@)
        &&& self.selected == 0
        &&& self.details_scroll == 0
        &&& self.hex_scroll == 0
        &&& self.should_quit == old.should_quit
        &&& self.filter_input@ == old.filter_input@
        &&& self.filter_cursor == old.filter_cursor
        &&& self.filter_mode == old.filter_mode
    }

    /// Set filter from input string.
    ///
    /// Blank input removes the filter; a valid filter replaces the active one; either way the
    /// shown list is recomputed. Invalid input records the error and changes nothing else.
    pub fn set_filter(&mut self, input: &str)
        requires
            old(self).wf(),
        ensures
            final(self).wf(),
            trim(input@).len() == 0 ==> final(self).refiltered(*old(self)) && final(self).filter is None
                && final(self).filter_error is None,
            trim(input@).len() > 0 ==> match spec_parse(input@) {
                Ok(f) => final(self).refiltered(*old(self)) && filter_view(final(self).filter) == Some(f)
                    && final(self).filter_error is None,
                Err(e) => final(self).filter_error matches Some(m) && m@ == e && filter_view(
                    final(self).filter,
                ) == filter_view(old(self).filter) && infos_view(final(self).packets@) == infos_view(
                    old(self).packets@,
                ) && infos_view(final(self).all_packets@) == infos_view(old(self).all_packets@)
                    && final(self).selected == old(self).selected && final(self).details_scroll
                    == old(self).details_scroll && final(self).hex_scroll == old(self).hex_scroll
                    && final(self).should_quit == old(self).should_quit && final(self).filter_input@
                    == old(self).filter_input@ && final(self).filter_cursor == old(self).filter_cursor
                    && final(self).filter_mode == old(self).filter_mode,
            },
    {
        let cs = chars_of(input);
        let (a, b) = trim_bounds(cs.as_slice(), 0, cs.len());
        assert(cs@.subrange(0, cs@.len() as int) =~= input@);
        if a == b {
            self.filter = None;
            self.filter_error = None;
        } else {
            match PacketFilter::parse(input) {
                Ok(filter) => {
                    self.filter = Some(filter);
                    self.filter_error = None;
                },
                Err(e) => {
                    self.filter_error = Some(e);
                    return;
                },
            }
        }
        self.apply_filter();
    }

    /// Enter filter editing mode, starting from the text of the active filter.
    pub fn enter_filter_mode(&mut self)
        requires
            old(self).wf(),
        ensures
            final(self).wf(),
            final(self).filter_mode,
            final(self).filter_input@ == match filter_view(old(self).filter) {
                Some(f) => filter_text(f),
                None => Seq::<char>::empty(),
            },
            final(self).filter_cursor == final(self).filter_input@.len(),
            infos_view(final(self).packets@) == infos_view(old(self).packets@),
            infos_view(final(self).all_packets@) == infos_view(old(self).all_packets@),
            filter_view(final(self).filter) == filter_view(old(self).filter),
            final(self).filter_error == old(self).filter_error,
            final(self).selected == old(self).selected,
            final(self).details_scroll == old(self).details_scroll,
            final(self).hex_scroll == old(self).hex_scroll,
            final(self).should_quit == old(self).should_quit,
    {
        self.filter_mode = true;
        self.filter_input = match &self.filter {
            Some(f) => f.to_text(),
            None => String::new(),
        };
        self.filter_cursor = self.filter_input.as_str().unicode_len();
    }

    /// Exit filter editing mode without applying.
    pub fn exit_filter_mode(&mut self)
        ensures
            old(self).wf() ==> final(self).wf(),
            !final(self).filter_mode,
            final(self).filter_input@.len() == 0,
            final(self).filter_cursor == 0,
            final(self).filter_error is None,
            infos_view(final(self).packets@) == infos_view(old(self).packets@),
            infos_view(final(self).all_packets@) == infos_view(old(self).all_packets@),
            filter_view(final(self).filter) == filter_view(old(self).filter),
            final(self).selected == old(self).selected,
            final(self).details_scroll == old(self).details_scroll,
            final(self).hex_scroll == old(self).hex_scroll,
            final(self).should_quit == old(self).should_quit,
    {
        self.filter_mode = false;
        self.filter_input = String::new();
        self.filter_cursor = 0;
        self.filter_error = None;
    }

    /// The state after applying the filter input: an empty input removes the filter, a valid
    /// one replaces it, and either re-filters the list and leaves filter mode; an invalid one
    /// records the parse error and changes nothing else.
    pub open spec fn applied_input(self, old: App) -> bool {
        &&& (trim(old.filter_input@).len() == 0 ==> self.filter is None && self.filter_error is None)
        &&& (trim(old.filter_input@).len() > 0 ==> match spec_parse(old.filter_input@) {
            Ok(f) => filter_view(self.filter) == Some(f) && self.filter_error is None,
            Err(e) => self.filter_error matches Some(m) && m@ == e && filter_view(self.filter)
                == filter_view(old.filter) && infos_view(self.packets@) == infos_view(old.packets@)
                && self.selected == old.selected,
        })
        &&& (self.filter_error is None ==> !self.filter_mode && self.filter_input@.len() == 0
            && self.filter_cursor == 0 && infos_view(self.packets@) == visible(infos_view(self.all_packets@), filter_view(self.filter))
            && self.selected == 0)
        &&& (self.filter_error is Some ==> self.filter_mode == old.filter_mode && self.filter_input@
            == old.filter_input@ && self.filter_cursor == old.filter_cursor)
        &&& (infos_view(self.all_packets@) == infos_view(old.all_packets@))
    }

    /// Apply current filter input and exit filter mode; on an invalid filter, stay in filter
    /// mode with the input kept and the error recorded.
    pub fn apply_filter_input(&mut self)
        requires
            old(self).wf(),
        ensures
            final(self).wf(),
            final(self).applied_input(*old(self)),
    {
        let input = self.filter_input.clone();
        self.set_filter(input.as_str());
        if self.filter_error.is_none() {
            self.filter_mode = false;
            self.filter_input = String::new();
            self.filter_cursor = 0;
        }
    }

    /// Clear current filter: every captured packet is shown again.
    pub fn clear_filter(&mut self)
        requires
            old(self).wf(),
        ensures
            final(self).wf(),
            final(self).refiltered(*old(self)),
            final(self).filter is None,
            final(self).filter_error is None,
            infos_view(final(self).packets@) == infos_view(old(self).all_packets@),
    {
        self.filter = None;
        self.filter_error = None;
        self.apply_filter();
    }

    /// Clear the current filter and the filter input; filter editing goes on.
    pub fn clear_filter_and_input(&mut self)
        requires
            old(self).wf(),
        ensures
            final(self).wf(),
            final(self).filter is None,
            final(self).filter_error is None,
            final(self).filter_input@.len() == 0,
            final(self).filter_cursor == 0,
            final(self).filter_mode == old(self).filter_mode,
            infos_view(final(self).packets@) == infos_view(old(self).all_packets@),
            infos_view(final(self).all_packets@) == infos_view(old(self).all_packets@),
            final(self).selected == 0,
            final(self).details_scroll == 0,
            final(self).hex_scroll == 0,
            final(self).should_quit == old(self).should_quit,
    {
        self.clear_filter();
        self.filter_input = String::new();
        self.filter_cursor = 0;
    }

    /// Edit the filter input with a key that is bound to no filter action: the key's edit
    /// request (see `keyevent_to_input_request`), if it asks for one, is applied to the input
    /// and its cursor; a key that asks for none changes nothing. Returns whether an edit was
    /// applied.
    pub fn edit_filter_input(&mut self, code: KeyCode, modifiers: u8) -> (edited: bool)
        ensures
            old(self).wf() ==> final(self).wf(),
            edited <==> spec_input_request(code, modifiers) is Some,
            match spec_input_request(code, modifiers) {
                Some(req) => (final(self).filter_input@, final(self).filter_cursor as nat) == input_edit(
                    old(self).filter_input@,
                    old(self).filter_cursor as nat,
                    req,
                ) && final(self).unchanged_but_input(*old(self)),
                None => *final(self) == *old(self),
            },
            spec_input_request(code, modifiers) matches Some(InputRequest::InsertChar(c)) ==> final(self).filter_input@ == old(self).filter_input@.take(
                clamped_cursor(old(self).filter_input@, old(self).filter_cursor as nat) as int,
            ) + seq![c] + old(self).filter_input@.skip(
                clamped_cursor(old(self).filter_input@, old(self).filter_cursor as nat) as int,
            ) && final(self).filter_cursor == clamped_cursor(
                old(self).filter_input@,
                old(self).filter_cursor as nat,
            ) + 1,
            spec_input_request(code, modifiers) == Some(InputRequest::GoToStart) ==> final(self).filter_input@ == old(self).filter_input@ && final(self).filter_cursor == 0,
            spec_input_request(code, modifiers) == Some(InputRequest::GoToEnd) ==> final(self).filter_input@ == old(self).filter_input@ && final(self).filter_cursor == old(self).filter_input@.len(),
            spec_input_request(code, modifiers) == Some(InputRequest::DeleteTillEnd) ==> final(self).filter_input@ == old(self).filter_input@.take(
                clamped_cursor(old(self).filter_input@, old(self).filter_cursor as nat) as int,
            ),
    {
        match keyevent_to_input_request(code, modifiers) {
            Some(req) => {
                let (text, cursor) = edit_text(self.filter_input.as_str(), self.filter_cursor, req);
                self.filter_input = text;
                self.filter_cursor = cursor;
                true
            },
            None => false,
        }
    }

    /// Everything but the filter input and its cursor is as in `old`.
    pub open spec fn unchanged_but_input(self, old: App) -> bool {
        &&& infos_view(self.packets@) == infos_view(old.packets@)
        &&& infos_view(self.all_packets@) == infos_view(old.all_packets@)
        &&& filter_view(self.filter) == filter_view(old.filter)
        &&& self.selected == old.selected
        &&& self.table_selected == old.table_selected
        &&& self.details_scroll == old.details_scroll
        &&& self.hex_scroll == old.hex_scroll
        &&& self.should_quit == old.should_quit
        &&& self.filter_mode == old.filter_mode
        &&& self.filter_error == old.filter_error
    }

    /// Get the currently selected packet.
    pub fn selected_packet(&self) -> (r: Option<&PacketInfo>)
        ensures
            r matches Some(p) ==> self.selected < self.packets@.len() && p@ == self.packets@[self.selected as int]@,
            r is None <==> self.selected >= self.packets@.len(),
    {
        if self.selected < self.packets.len() {
            Some(&self.packets[self.selected])
        } else {
            None
        }
    }

    /// The fields that navigation leaves alone are unchanged from `old`.
    pub open spec fn same_content(self, old: App) -> bool {
        &&& infos_view(self.packets@) == infos_view(old.packets@)
        &&& infos_view(self.all_packets@) == infos_view(old.all_packets@)
        &&& filter_view(self.filter) == filter_view(old.filter)
        &&& self.filter_input@ == old.filter_input@
        &&& self.filter_cursor == old.filter_cursor
        &&& self.filter_mode == old.filter_mode
        &&& self.filter_error == old.filter_error
        &&& self.should_quit == old.should_quit
    }

    /// The selection after asking for row `target`: taken when it is a shown row (and the
    /// scroll offsets start over), else nothing moves.
    pub open spec fn selection_after(self, old: App, target: int) -> bool {
        if 0 <= target < old.packets@.len() {
            &&& self.selected == target
            &&& self.details_scroll == 0
            &&& self.hex_scroll == 0
        } else {
            &&& self.selected == old.selected
            &&& self.details_scroll == old.details_scroll
            &&& self.hex_scroll == old.hex_scroll
        }
    }

    /// The packets, the filter, the selection and the scroll offsets are as in `old`.
    pub open spec fn same_view(self, old: App) -> bool {
        &&& infos_view(self.packets@) == infos_view(old.packets@)
        &&& infos_view(self.all_packets@) == infos_view(old.all_packets@)
        &&& filter_view(self.filter) == filter_view(old.filter)
        &&& self.selected == old.selected
        &&& self.details_scroll == old.details_scroll
        &&& self.hex_scroll == old.hex_scroll
    }

    /// Set the selected packet index; an index past the shown list is ignored.
    pub fn set_selected(&mut self, index: usize)
        ensures
            old(self).wf() ==> final(self).wf(),
            final(self).same_content(*old(self)),
            final(self).selection_after(*old(self), index as int),
            index < old(self).packets@.len() ==> final(self).selected == index && final(self).details_scroll
                == 0 && final(self).hex_scroll == 0,
            index >= old(self).packets@.len() ==> final(self).selected == old(self).selected
                && final(self).details_scroll == old(self).details_scroll && final(self).hex_scroll
                == old(self).hex_scroll,
    {
        if index < self.packets.len() {
            self.selected = index;
            self.table_selected = Some(self.selected);
            self.details_scroll = 0;
            self.hex_scroll = 0;
        }
    }

    /// Move selection by given offset, saturating at the ends of the index range.
    pub fn move_selection(&mut self, offset: isize)
        ensures
            old(self).wf() ==> final(self).wf(),
            final(self).same_content(*old(self)),
            final(self).selection_after(*old(self), moved_index(old(self).selected, offset)),
            moved_index(old(self).selected, offset) < old(self).packets@.len() ==> final(self).selected
                == moved_index(old(self).selected, offset) && final(self).details_scroll == 0
                && final(self).hex_scroll == 0,
            moved_index(old(self).selected, offset) >= old(self).packets@.len() ==> final(self).selected
                == old(self).selected && final(self).details_scroll == old(self).details_scroll
                && final(self).hex_scroll == old(self).hex_scroll,
    {
        let new_index = if offset < 0 {
            let magnitude = (0 - (offset as i128)) as usize;
            self.selected.saturating_sub(magnitude)
        } else {
            self.selected.saturating_add(offset as usize)
        };
        self.set_selected(new_index);
    }

    /// Move selection up.
    pub fn select_previous(&mut self)
        requires
            old(self).wf(),
        ensures
            final(self).wf(),
            final(self).same_content(*old(self)),
            old(self).selected > 0 ==> final(self).selected == old(self).selected - 1,
            old(self).selected == 0 ==> final(self).selected == 0,
            final(self).selection_after(*old(self), moved_index(old(self).selected, -1isize)),
    {
        self.move_selection(-1);
    }

    /// Move selection down; stays on the last packet.
    pub fn select_next(&mut self)
        ensures
            old(self).wf() ==> final(self).wf(),
            final(self).same_content(*old(self)),
            old(self).selected + 1 < old(self).packets@.len() ==> final(self).selected == old(self).selected + 1,
            old(self).selected + 1 >= old(self).packets@.len() ==> final(self).selected == old(self).selected,
            final(self).selection_after(*old(self), moved_index(old(self).selected, 1isize)),
    {
        let n = self.packets.len();
        assert(n == self.packets@.len());
        self.move_selection(1);
    }

    /// Scroll details view up.
    pub fn scroll_details_up(&mut self)
        ensures
            old(self).wf() ==> final(self).wf(),
            final(self).same_content(*old(self)),
            final(self).selected == old(self).selected,
            final(self).hex_scroll == old(self).hex_scroll,
            final(self).details_scroll == (if old(self).details_scroll == 0 { 0 } else { old(self).details_scroll - 1 }),
    {
        self.details_scroll = self.details_scroll.saturating_sub(1);
    }

    /// Scroll details view down.
    pub fn scroll_details_down(&mut self)
        ensures
            old(self).wf() ==> final(self).wf(),
            final(self).same_content(*old(self)),
            final(self).selected == old(self).selected,
            final(self).hex_scroll == old(self).hex_scroll,
            final(self).details_scroll == (if old(self).details_scroll == u16::MAX { u16::MAX as int } else { old(self).details_scroll + 1 }),
    {
        self.details_scroll = self.details_scroll.saturating_add(1);
    }

    /// Scroll hex dump up.
    pub fn scroll_hex_up(&mut self)
        ensures
            old(self).wf() ==> final(self).wf(),
            final(self).same_content(*old(self)),
            final(self).selected == old(self).selected,
            final(self).details_scroll == old(self).details_scroll,
            final(self).hex_scroll == (if old(self).hex_scroll == 0 { 0 } else { old(self).hex_scroll - 1 }),
    {
        self.hex_scroll = self.hex_scroll.saturating_sub(1);
    }

    /// Scroll hex dump down.
    pub fn scroll_hex_down(&mut self)
        ensures
            old(self).wf() ==> final(self).wf(),
            final(self).same_content(*old(self)),
            final(self).selected == old(self).selected,
            final(self).details_scroll == old(self).details_scroll,
            final(self).hex_scroll == (if old(self).hex_scroll == u16::MAX { u16::MAX as int } else { old(self).hex_scroll + 1 }),
    {
        self.hex_scroll = self.hex_scroll.saturating_add(1);
    }

    /// Request to quit the application.
    pub fn quit(&mut self)
        ensures
            old(self).wf() ==> final(self).wf(),
            final(self).should_quit,
            infos_view(final(self).packets@) == infos_view(old(self).packets@),
            infos_view(final(self).all_packets@) == infos_view(old(self).all_packets@),
            filter_view(final(self).filter) == filter_view(old(self).filter),
            final(self).filter_mode == old(self).filter_mode,
            final(self).selected == old(self).selected,
            final(self).details_scroll == old(self).details_scroll,
            final(self).hex_scroll == old(self).hex_scroll,
    {
        self.should_quit = true;
    }
}

impl Default for App {
    fn default() -> (app: Self)
        ensures
            app.wf(),
            app.all_packets@.len() == 0,
            app.packets@.len() == 0,
            app.selected == 0,
            !app.should_quit,
            app.filter is None,
            !app.filter_mode,
    {
        Self::new()
    }
}

} // verus!
