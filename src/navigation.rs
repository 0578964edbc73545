use crate::state::{selected_entry, App};
use crate::text::{decimal, div_round_even, div_round_even_exec, pop_char, push_char, u64_text};
use crate::view_mode::ViewMode;
use vstd::prelude::*;

verus! {

/// Lines that the detail view keeps on screen below its last scroll position.
pub const DETAIL_VISIBLE_LINES: usize = 10;

/// `a - b`, or 0 where `b` exceeds `a`.
pub open spec fn sat_sub_usize(a: usize, b: usize) -> usize {
    if a >= b {
        (a - b) as usize
    } else {
        0
    }
}

impl App {
    /// Opens the detail view on the selected process (from the process
    /// list, with a non-empty displayed list).
    pub fn open_detail_view(&mut self)
        requires
            old(self).wf(),
        ensures
            final(self).wf(),
            final(self).error_message == old(self).error_message,
            old(self).view_mode != ViewMode::ProcessList || selected_entry(*old(self)) is None
                ==> *final(self) == *old(self),
            old(self).view_mode == ViewMode::ProcessList && selected_entry(*old(self)) is Some ==> {
                let e = selected_entry(*old(self))->0;
                &&& final(self).view_mode == ViewMode::DetailView
                &&& final(self).detail_view_pid == Some(e.info.pid)
                &&& final(self).detail_view_name == Some(e.info.name)
                &&& final(self).detail_scroll_offset == 0
                &&& final(self).processes == old(self).processes
                &&& final(self).filtered_processes == old(self).filtered_processes
            },
    {
        if !self.view_mode.is_process_list() || self.selected_index >= self.filtered_processes.len() {
            return;
        }
        let e = &self.filtered_processes[self.selected_index];
        self.detail_view_pid = Some(e.info.pid);
        self.detail_view_name = Some(e.info.name.clone());
        self.view_mode = ViewMode::DetailView;
        self.detail_scroll_offset = 0;
    }

    /// Leaves the detail view for the process list.
    pub fn close_detail_view(&mut self)
        requires
            old(self).wf(),
        ensures
            final(self).wf(),
            final(self).error_message == old(self).error_message,
            old(self).view_mode == ViewMode::DetailView ==> final(self).view_mode
                == ViewMode::ProcessList && final(self).detail_view_pid is None
                && final(self).detail_view_name is None && final(self).detail_scroll_offset == 0,
            old(self).view_mode != ViewMode::DetailView ==> *final(self) == *old(self),
            final(self).processes == old(self).processes,
            final(self).filtered_processes == old(self).filtered_processes,
            final(self).selected_index == old(self).selected_index,
    {
        if self.view_mode.is_detail_view() {
            self.view_mode = ViewMode::ProcessList;
            self.detail_view_pid = None;
            self.detail_view_name = None;
            self.detail_scroll_offset = 0;
        }
    }

    /// Scrolls the detail view one line down, while lines of the
    /// `total_lines` remain below the visible part.
    pub fn detail_scroll_down(&mut self, total_lines: usize)
        ensures
            final(self).detail_scroll_offset == if old(self).detail_scroll_offset < sat_sub_usize(
                total_lines,
                DETAIL_VISIBLE_LINES,
            ) {
                (old(self).detail_scroll_offset + 1) as usize
            } else {
                old(self).detail_scroll_offset
            },
            *final(self) == (App { detail_scroll_offset: final(self).detail_scroll_offset, ..*old(self) }),
    {
        let max = total_lines.saturating_sub(DETAIL_VISIBLE_LINES);
        if self.detail_scroll_offset < max {
            self.detail_scroll_offset += 1;
        }
    }

    /// Scrolls the detail view one line up.
    pub fn detail_scroll_up(&mut self)
        ensures
            final(self).detail_scroll_offset == sat_sub_usize(old(self).detail_scroll_offset, 1),
            *final(self) == (App { detail_scroll_offset: final(self).detail_scroll_offset, ..*old(self) }),
    {
        if self.detail_scroll_offset > 0 {
            self.detail_scroll_offset -= 1;
        }
    }

    /// Scrolls the detail view `lines` down, no further than its last page.
    pub fn detail_page_down(&mut self, lines: usize, total_lines: usize)
        ensures
            final(self).detail_scroll_offset as int == if old(self).detail_scroll_offset + lines
                < sat_sub_usize(total_lines, DETAIL_VISIBLE_LINES) {
                old(self).detail_scroll_offset + lines
            } else {
                sat_sub_usize(total_lines, DETAIL_VISIBLE_LINES) as int
            },
            *final(self) == (App { detail_scroll_offset: final(self).detail_scroll_offset, ..*old(self) }),
    {
        let max = total_lines.saturating_sub(DETAIL_VISIBLE_LINES);
        let target = self.detail_scroll_offset.saturating_add(lines);
        self.detail_scroll_offset = if target < max {
            target
        } else {
            max
        };
    }

    /// Scrolls the detail view `lines` up.
    pub fn detail_page_up(&mut self, lines: usize)
        ensures
            final(self).detail_scroll_offset == sat_sub_usize(old(self).detail_scroll_offset, lines),
            *final(self) == (App { detail_scroll_offset: final(self).detail_scroll_offset, ..*old(self) }),
    {
        self.detail_scroll_offset = self.detail_scroll_offset.saturating_sub(lines);
    }

    /// Moves the selection one row up.
    pub fn move_up(&mut self)
        ensures
            final(self).selected_index == sat_sub_usize(old(self).selected_index, 1),
            *final(self) == (App { selected_index: final(self).selected_index, ..*old(self) }),
    {
        if self.selected_index > 0 {
            self.selected_index -= 1;
        }
    }

    /// Moves the selection one row down, stopping at the last row.
    pub fn move_down(&mut self)
        ensures
            final(self).selected_index == if old(self).selected_index + 1
                < old(self).filtered_processes@.len() {
                (old(self).selected_index + 1) as usize
            } else {
                old(self).selected_index
            },
            *final(self) == (App { selected_index: final(self).selected_index, ..*old(self) }),
    {
        if self.selected_index < self.filtered_processes.len().saturating_sub(1) {
            self.selected_index += 1;
        }
    }

    /// Moves the selection one page of `visible_rows` up.
    pub fn page_up(&mut self, visible_rows: usize)
        ensures
            final(self).selected_index == sat_sub_usize(old(self).selected_index, visible_rows),
            *final(self) == (App { selected_index: final(self).selected_index, ..*old(self) }),
    {
        self.selected_index = self.selected_index.saturating_sub(visible_rows);
    }

    /// Moves the selection one page of `visible_rows` down, stopping at the last row.
    pub fn page_down(&mut self, visible_rows: usize)
        ensures
            final(self).selected_index as int == if old(self).selected_index + visible_rows
                < sat_sub_usize(old(self).filtered_processes@.len() as usize, 1) {
                old(self).selected_index + visible_rows
            } else {
                sat_sub_usize(old(self).filtered_processes@.len() as usize, 1) as int
            },
            *final(self) == (App { selected_index: final(self).selected_index, ..*old(self) }),
    {
        let last = self.filtered_processes.len().saturating_sub(1);
        let target = self.selected_index.saturating_add(visible_rows);
        self.selected_index = if target < last {
            target
        } else {
            last
        };
    }

    /// Selects the first row.
    pub fn jump_to_start(&mut self)
        ensures
            final(self).selected_index == 0,
            *final(self) == (App { selected_index: 0, ..*old(self) }),
    {
        self.selected_index = 0;
    }

    /// Selects the last row (the first of an empty list).
    pub fn jump_to_end(&mut self)
        ensures
            final(self).selected_index == sat_sub_usize(
                old(self).filtered_processes@.len() as usize,
                1,
            ),
            *final(self) == (App { selected_index: final(self).selected_index, ..*old(self) }),
    {
        self.selected_index = self.filtered_processes.len().saturating_sub(1);
    }

    /// Starts typing a filter (from the process list).
    pub fn begin_filter_input(&mut self)
        requires
            old(self).wf(),
        ensures
            final(self).wf(),
            old(self).view_mode == ViewMode::ProcessList ==> *final(self) == (App {
                view_mode: ViewMode::FilterInput,
                ..*old(self)
            }),
            old(self).view_mode != ViewMode::ProcessList ==> *final(self) == *old(self),
    {
        if self.view_mode.is_process_list() {
            self.view_mode = ViewMode::FilterInput;
        }
    }

    /// Stops typing the filter and returns to the process list, keeping the
    /// filter text and rebuilding the displayed list.
    pub fn end_filter_input(&mut self)
        requires
            old(self).wf(),
        ensures
            final(self).wf(),
            final(self).error_message == old(self).error_message,
            final(self).display_current(),
            final(self).filter == old(self).filter,
            old(self).view_mode == ViewMode::FilterInput ==> final(self).view_mode
                == ViewMode::ProcessList,
            old(self).view_mode != ViewMode::FilterInput ==> final(self).view_mode == old(self).view_mode,
    {
        if self.view_mode.is_filter_input() {
            self.view_mode = ViewMode::ProcessList;
        }
        self.apply_filter();
    }

    /// Appends a character to the filter and rebuilds the displayed list.
    pub fn push_filter_char(&mut self, c: char)
        requires
            old(self).wf(),
        ensures
            final(self).wf(),
            final(self).error_message == old(self).error_message,
            final(self).display_current(),
            final(self).filter@ == old(self).filter@.push(c),
            final(self).view_mode == old(self).view_mode,
    {
        push_char(&mut self.filter, c);
        self.apply_filter();
    }

    /// Removes the filter's last character, if any, and rebuilds the displayed list.
    pub fn pop_filter_char(&mut self)
        requires
            old(self).wf(),
        ensures
            final(self).wf(),
            final(self).error_message == old(self).error_message,
            final(self).display_current(),
            old(self).filter@.len() > 0 ==> final(self).filter@ == old(self).filter@.drop_last(),
            old(self).filter@.len() == 0 ==> final(self).filter@ == old(self).filter@,
            final(self).view_mode == old(self).view_mode,
    {
        let _ = pop_char(&mut self.filter);
        self.apply_filter();
    }

    /// Empties the filter and rebuilds the displayed list.
    pub fn clear_filter(&mut self)
        requires
            old(self).wf(),
        ensures
            final(self).wf(),
            final(self).error_message == old(self).error_message,
            final(self).display_current(),
            final(self).filter@.len() == 0,
            final(self).view_mode == old(self).view_mode,
    {
        self.filter = String::new();
        self.apply_filter();
    }

    /// Opens the help overlay (from the process list).
    pub fn show_help(&mut self)
        requires
            old(self).wf(),
        ensures
            final(self).wf(),
            old(self).view_mode == ViewMode::ProcessList ==> *final(self) == (App {
                view_mode: ViewMode::Help,
                help_scroll_offset: 0,
                ..*old(self)
            }),
            old(self).view_mode != ViewMode::ProcessList ==> *final(self) == *old(self),
    {
        if self.view_mode.is_process_list() {
            self.view_mode = ViewMode::Help;
            self.help_scroll_offset = 0;
        }
    }

    /// Closes the help overlay.
    pub fn close_help(&mut self)
        requires
            old(self).wf(),
        ensures
            final(self).wf(),
            old(self).view_mode == ViewMode::Help ==> *final(self) == (App {
                view_mode: ViewMode::ProcessList,
                ..*old(self)
            }),
            old(self).view_mode != ViewMode::Help ==> *final(self) == *old(self),
    {
        if self.view_mode.is_help() {
            self.view_mode = ViewMode::ProcessList;
        }
    }
}


/// The next slower refresh step: 250 ms, 500 ms, 1 s, 2 s, 5 s, 10 s.
pub open spec fn slower_interval(ms: u64) -> u64 {
    if ms >= 5000 {
        10000
    } else if ms >= 2000 {
        5000
    } else if ms >= 1000 {
        2000
    } else if ms >= 500 {
        1000
    } else {
        500
    }
}

/// The next faster refresh step: 10 s, 5 s, 2 s, 1 s, 500 ms, 250 ms.
pub open spec fn faster_interval(ms: u64) -> u64 {
    if ms <= 500 {
        250
    } else if ms <= 1000 {
        500
    } else if ms <= 2000 {
        1000
    } else if ms <= 5000 {
        2000
    } else {
        5000
    }
}

/// How the refresh interval is shown: tenths of seconds from one second
/// up (`"2.0s"`), milliseconds below (`"500ms"`).
pub open spec fn interval_text(ms: u64) -> Seq<char> {
    if ms >= 1000 {
        let t = div_round_even(ms as nat * 10, 1000);
        decimal(t / 10) + "."@ + decimal(t % 10) + "s"@
    } else {
        decimal(ms as nat) + "ms"@
    }
}

impl App {
    /// Refreshes less often.
    pub fn increase_refresh_interval(&mut self)
        ensures
            *final(self) == (App {
                refresh_interval_ms: slower_interval(old(self).refresh_interval_ms),
                ..*old(self)
            }),
    {
        let ms = self.refresh_interval_ms;
        self.refresh_interval_ms = if ms >= 5000 {
            10000
        } else if ms >= 2000 {
            5000
        } else if ms >= 1000 {
            2000
        } else if ms >= 500 {
            1000
        } else {
            500
        };
    }

    /// Refreshes more often.
    pub fn decrease_refresh_interval(&mut self)
        ensures
            *final(self) == (App {
                refresh_interval_ms: faster_interval(old(self).refresh_interval_ms),
                ..*old(self)
            }),
    {
        let ms = self.refresh_interval_ms;
        self.refresh_interval_ms = if ms <= 500 {
            250
        } else if ms <= 1000 {
            500
        } else if ms <= 2000 {
            1000
        } else if ms <= 5000 {
            2000
        } else {
            5000
        };
    }

    /// The refresh interval as shown in the status bar.
    pub fn format_refresh_interval(&self) -> (r: String)
        ensures
            r@ == interval_text(self.refresh_interval_ms),
    {
        let ms = self.refresh_interval_ms;
        if ms >= 1000 {
            let t = div_round_even_exec(ms as u128 * 10, 1000);
            assert(t <= ms as u128 * 10) by (nonlinear_arith)
                requires
                    t == div_round_even(ms as nat * 10, 1000),
            ;
            u64_text((t / 10) as u64).concat(".").concat(u64_text((t % 10) as u64).as_str()).concat(
                "s",
            )
        } else {
            u64_text(ms).concat("ms")
        }
    }
}

} // verus!
