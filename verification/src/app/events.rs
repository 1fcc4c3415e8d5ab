//! What each bound key does to the application state.
use vstd::prelude::*;
use super::filter::filter_text;
use super::key_config::KeyEvent;
use vstd::string::StrSliceExecFns;
use super::state::{filter_view, infos_view, moved_index, App};
use super::input::{input_edit, spec_input_request, KeyCode};

verus! {

impl App {
    /// The state after the action `event` outside filter editing, `page` rows being visible.
    pub open spec fn after_key(self, old: App, event: KeyEvent, page: u16) -> bool {
        match event {
            KeyEvent::Quit => {
                &&& self.should_quit
                &&& self.same_view(old)
                &&& self.filter_mode == old.filter_mode
            },
            KeyEvent::ApplyFilter => {
                &&& self.filter_mode
                &&& self.filter_input@ == match filter_view(old.filter) {
                    Some(f) => filter_text(f),
                    None => Seq::<char>::empty(),
                }
                &&& self.filter_cursor == self.filter_input@.len()
                &&& self.same_view(old)
                &&& self.filter_error == old.filter_error
                &&& self.should_quit == old.should_quit
            },
            KeyEvent::ClearFilter => {
                &&& self.refiltered(old)
                &&& self.filter is None
                &&& self.filter_error is None
                &&& infos_view(self.packets@) == infos_view(old.all_packets@)
            },
            KeyEvent::PktUp => self.same_content(old) && self.selection_after(
                old,
                moved_index(old.selected, -1isize),
            ),
            KeyEvent::PktDown => self.same_content(old) && self.selection_after(
                old,
                moved_index(old.selected, 1isize),
            ),
            KeyEvent::PktPageUp => self.same_content(old) && self.selection_after(
                old,
                moved_index(old.selected, (-(page as int)) as isize),
            ),
            KeyEvent::PktPageDown => self.same_content(old) && self.selection_after(
                old,
                moved_index(old.selected, page as isize),
            ),
            KeyEvent::PktHome => self.same_content(old) && self.selection_after(old, 0),
            KeyEvent::PktEnd => self.same_content(old) && self.selection_after(
                old,
                if old.packets@.len() == 0 {
                    0
                } else {
                    old.packets@.len() - 1
                },
            ),
            KeyEvent::DtlUp => {
                &&& self.same_content(old)
                &&& self.selected == old.selected
                &&& self.hex_scroll == old.hex_scroll
                &&& self.details_scroll == (if old.details_scroll == 0 {
                    0
                } else {
                    old.details_scroll - 1
                })
            },
            KeyEvent::DtlDown => {
                &&& self.same_content(old)
                &&& self.selected == old.selected
                &&& self.hex_scroll == old.hex_scroll
                &&& self.details_scroll == (if old.details_scroll == u16::MAX {
                    u16::MAX as int
                } else {
                    old.details_scroll + 1
                })
            },
            KeyEvent::HexUp => {
                &&& self.same_content(old)
                &&& self.selected == old.selected
                &&& self.details_scroll == old.details_scroll
                &&& self.hex_scroll == (if old.hex_scroll == 0 {
                    0
                } else {
                    old.hex_scroll - 1
                })
            },
            KeyEvent::HexDown => {
                &&& self.same_content(old)
                &&& self.selected == old.selected
                &&& self.details_scroll == old.details_scroll
                &&& self.hex_scroll == (if old.hex_scroll == u16::MAX {
                    u16::MAX as int
                } else {
                    old.hex_scroll + 1
                })
            },
        }
    }
}

/// Handle a key bound to `event` outside filter editing; `page` is the number of packet rows
/// visible, the step of a page move. Enter starts editing the filter, Esc clears the active
/// filter.
pub fn handle_key_event(app: &mut App, event: KeyEvent, page: u16) -> (handled: bool)
    requires
        old(app).wf(),
    ensures
        final(app).wf(),
        final(app).after_key(*old(app), event, page),
        handled,
{
    match event {
        KeyEvent::Quit => app.quit(),
        KeyEvent::ApplyFilter => app.enter_filter_mode(),
        KeyEvent::ClearFilter => app.clear_filter(),
        KeyEvent::PktUp => app.select_previous(),
        KeyEvent::PktDown => app.select_next(),
        KeyEvent::PktPageUp => app.move_selection(0 - (page as isize)),
        KeyEvent::PktPageDown => app.move_selection(page as isize),
        KeyEvent::PktHome => app.set_selected(0),
        KeyEvent::PktEnd => {
            let n = app.packets.len();
            app.set_selected(n.saturating_sub(1));
        },
        KeyEvent::DtlUp => app.scroll_details_up(),
        KeyEvent::DtlDown => app.scroll_details_down(),
        KeyEvent::HexUp => app.scroll_hex_up(),
        KeyEvent::HexDown => app.scroll_hex_down(),
    }
    true
}

/// Handle a key while the filter is being edited; `event` is the action bound to the key,
/// if any, and `code` with `modifiers` the key itself. Enter applies the input, Esc clears
/// it (or leaves editing when it is empty); any other key edits the input by the request
/// that `keyevent_to_input_request` gives for it, if any. Returns whether the key was one
/// of the two filter actions.
pub fn handle_filter_key(app: &mut App, event: Option<KeyEvent>, code: KeyCode, modifiers: u8) -> (handled: bool)
    requires
        old(app).wf(),
    ensures
        final(app).wf(),
        handled <==> (event == Some(KeyEvent::ApplyFilter) || event == Some(KeyEvent::ClearFilter)),
        event == Some(KeyEvent::ApplyFilter) ==> final(app).applied_input(*old(app)),
        event == Some(KeyEvent::ClearFilter) && old(app).filter_input@.len() == 0 ==> {
            &&& !final(app).filter_mode
            &&& final(app).filter_input@.len() == 0
            &&& final(app).filter_cursor == 0
            &&& final(app).filter_error is None
            &&& final(app).same_view(*old(app))
        },
        event == Some(KeyEvent::ClearFilter) && old(app).filter_input@.len() > 0 ==> {
            &&& final(app).filter is None
            &&& final(app).filter_error is None
            &&& final(app).filter_input@.len() == 0
            &&& final(app).filter_cursor == 0
            &&& final(app).filter_mode == old(app).filter_mode
            &&& infos_view(final(app).packets@) == infos_view(old(app).all_packets@)
            &&& final(app).selected == 0
        },
        !handled ==> match spec_input_request(code, modifiers) {
            Some(req) => (final(app).filter_input@, final(app).filter_cursor as nat) == input_edit(
                old(app).filter_input@,
                old(app).filter_cursor as nat,
                req,
            ) && final(app).unchanged_but_input(*old(app)),
            None => *final(app) == *old(app),
        },
{
    match event {
        Some(KeyEvent::ApplyFilter) => {
            app.apply_filter_input();
            true
        },
        Some(KeyEvent::ClearFilter) => {
            if app.filter_input.as_str().unicode_len() == 0 {
                app.exit_filter_mode();
            } else {
                app.clear_filter_and_input();
            }
            true
        },
        _ => {
            app.edit_filter_input(code, modifiers);
            false
        },
    }
}

/// The pane keys: the details keys move only the details pane, one line up or down and
/// no further than its ends, and the hex keys move only the hex dump pane; none of them
/// moves the selection or changes what is shown.
pub proof fn law_scroll_keys(new: App, old: App, page: u16)
    ensures
        new.after_key(old, KeyEvent::DtlUp, page) ==> new.details_scroll + 1 == old.details_scroll
            || new.details_scroll == old.details_scroll == 0,
        new.after_key(old, KeyEvent::DtlDown, page) ==> new.details_scroll == old.details_scroll + 1
            || new.details_scroll == old.details_scroll == u16::MAX,
        new.after_key(old, KeyEvent::HexUp, page) ==> new.hex_scroll + 1 == old.hex_scroll
            || new.hex_scroll == old.hex_scroll == 0,
        new.after_key(old, KeyEvent::HexDown, page) ==> new.hex_scroll == old.hex_scroll + 1
            || new.hex_scroll == old.hex_scroll == u16::MAX,
        new.after_key(old, KeyEvent::DtlUp, page) || new.after_key(old, KeyEvent::DtlDown, page)
            ==> new.hex_scroll == old.hex_scroll && new.selected == old.selected
            && infos_view(new.packets@) == infos_view(old.packets@),
        new.after_key(old, KeyEvent::HexUp, page) || new.after_key(old, KeyEvent::HexDown, page)
            ==> new.details_scroll == old.details_scroll && new.selected == old.selected
            && infos_view(new.packets@) == infos_view(old.packets@),
{
}

/// The list keys: up and down move the selection one row (when there is a row to move to),
/// Home selects the first row and End the last; they change neither the shown packets nor the
/// filter.
pub proof fn law_selection_keys(new: App, old: App, page: u16)
    ensures
        new.after_key(old, KeyEvent::PktUp, page) && 0 < old.selected < old.packets@.len()
            ==> new.selected == old.selected - 1,
        new.after_key(old, KeyEvent::PktUp, page) && old.selected == 0 ==> new.selected == 0,
        new.after_key(old, KeyEvent::PktDown, page) && old.selected + 1 < old.packets@.len()
            ==> new.selected == old.selected + 1,
        new.after_key(old, KeyEvent::PktDown, page) && old.selected + 1 >= old.packets@.len()
            ==> new.selected == old.selected,
        new.after_key(old, KeyEvent::PktHome, page) && old.packets@.len() > 0 ==> new.selected == 0,
        new.after_key(old, KeyEvent::PktEnd, page) && old.packets@.len() > 0 ==> new.selected + 1
            == old.packets@.len(),
        new.after_key(old, KeyEvent::PktPageDown, page) && old.selected + page < old.packets@.len()
            ==> new.selected == old.selected + page,
        new.after_key(old, KeyEvent::PktPageUp, page) && page <= old.selected < old.packets@.len()
            ==> new.selected == old.selected - page,
        new.after_key(old, KeyEvent::PktUp, page) || new.after_key(old, KeyEvent::PktDown, page)
            || new.after_key(old, KeyEvent::PktHome, page) || new.after_key(old, KeyEvent::PktEnd, page)
            ==> infos_view(new.packets@) == infos_view(old.packets@) && filter_view(new.filter)
            == filter_view(old.filter) && !new.should_quit == !old.should_quit,
{
    assert(old.packets.len() == old.packets@.len());
}

/// The other keys: Quit asks to quit and changes nothing shown; Enter starts editing the
/// filter from the active filter's text; Esc removes the filter and shows every captured
/// packet.
pub proof fn law_mode_keys(new: App, old: App, page: u16)
    ensures
        new.after_key(old, KeyEvent::Quit, page) ==> new.should_quit && infos_view(new.packets@)
            == infos_view(old.packets@) && filter_view(new.filter) == filter_view(old.filter),
        new.after_key(old, KeyEvent::ApplyFilter, page) ==> new.filter_mode && !old.should_quit
            == !new.should_quit && filter_view(new.filter) == filter_view(old.filter),
        new.after_key(old, KeyEvent::ClearFilter, page) ==> new.filter is None && infos_view(
            new.packets@,
        ) == infos_view(old.all_packets@),
{
}

} // verus!
