//! The event dispatcher: a single consumer merges keyboard commands and
//! file-change notifications into ordered state transitions, one redraw per
//! handled event, and stops only on an explicit quit or when every producer
//! is gone. Reading the source and drawing the screen are actions handed
//! back to the caller; each handled event completes atomically before the
//! next is considered.

use vstd::prelude::*;
use crate::app::{App, AppArea, key_down_transition, key_up_transition};

verus! {

/// A keyboard command, as decoded from a key press.
#[derive(Clone, Copy, PartialEq, Eq, Structural, Debug)]
pub enum Command {
    FocusSpans,
    FocusMessages,
    FocusDetail,
    CopyMessage,
    Reload,
    JumpToEnd,
    Up,
    Down,
    Quit,
    Other,
}

/// One event the dispatcher waits for.
#[derive(Clone, Copy, PartialEq, Eq, Structural, Debug)]
pub enum AppEvent {
    /// A key was pressed.
    Key(Command),
    /// The watched source file changed.
    FileChanged,
    /// Every producer channel has closed.
    ProducersClosed,
}

/// What the caller must do after an event is handled.
#[derive(Clone, Copy, PartialEq, Eq, Structural, Debug)]
pub enum Action {
    /// Redraw the screen; the state transition is already applied.
    Redraw,
    /// Re-read the source, hand it to `App::reload_messages`, then redraw.
    ReloadThenRedraw,
    /// Place `App::copy_payload` on the clipboard, then redraw.
    CopyThenRedraw,
    /// Stop the loop; no further redraw.
    Stop,
}

/// One step of the dispatcher: route a key press by the focused pane, let a
/// file change or an explicit reload command request a reload, stop on quit
/// or when every producer is gone. Events that only request outside work —
/// reload, copy, quit — leave the state untouched here: a quit that arrives
/// while a reload is still being read therefore finds the previous state
/// intact, and no partial state is ever observable.
pub fn handle_event(app: &mut App, ev: AppEvent) -> (a: Action)
    requires
        old(app).wf(),
    ensures
        final(app).wf(),
        match ev {
            AppEvent::Key(Command::Quit) => a == Action::Stop && *final(app) == *old(app),
            AppEvent::ProducersClosed => a == Action::Stop && *final(app) == *old(app),
            AppEvent::FileChanged => a == Action::ReloadThenRedraw && *final(app) == *old(app),
            AppEvent::Key(Command::Reload) => a == Action::ReloadThenRedraw && *final(app) == *old(
                app,
            ),
            AppEvent::Key(Command::CopyMessage) => a == Action::CopyThenRedraw && *final(app)
                == *old(app),
            AppEvent::Key(Command::FocusSpans) => a == Action::Redraw && *final(app) == (App {
                selected_area: AppArea::Spans,
                ..*old(app)
            }),
            AppEvent::Key(Command::FocusMessages) => a == Action::Redraw && *final(app) == (App {
                selected_area: AppArea::Messages,
                ..*old(app)
            }),
            AppEvent::Key(Command::FocusDetail) => a == Action::Redraw && *final(app) == (App {
                selected_area: AppArea::MessageDetail,
                ..*old(app)
            }),
            AppEvent::Key(Command::Up) => a == Action::Redraw && key_up_transition(
                *old(app),
                *final(app),
            ),
            AppEvent::Key(Command::Down) => a == Action::Redraw && key_down_transition(
                *old(app),
                *final(app),
            ),
            AppEvent::Key(Command::JumpToEnd) => a == Action::Redraw && jump_transition(
                *old(app),
                *final(app),
            ),
            AppEvent::Key(Command::Other) => a == Action::Redraw && *final(app) == *old(app),
        },
{
    match ev {
        AppEvent::Key(cmd) => match cmd {
            Command::FocusSpans => {
                app.select_area(AppArea::Spans);
                Action::Redraw
            },
            Command::FocusMessages => {
                app.select_area(AppArea::Messages);
                Action::Redraw
            },
            Command::FocusDetail => {
                app.select_area(AppArea::MessageDetail);
                Action::Redraw
            },
            Command::CopyMessage => Action::CopyThenRedraw,
            Command::Reload => Action::ReloadThenRedraw,
            Command::JumpToEnd => {
                app.jump_to_end();
                Action::Redraw
            },
            Command::Up => {
                app.handle_key_up();
                Action::Redraw
            },
            Command::Down => {
                app.handle_key_down();
                Action::Redraw
            },
            Command::Quit => Action::Stop,
            Command::Other => Action::Redraw,
        },
        AppEvent::FileChanged => Action::ReloadThenRedraw,
        AppEvent::ProducersClosed => Action::Stop,
    }
}

/// What a jump-to-end command does: the message selection lands on the last
/// record, the detail is re-rendered, everything else stays.
pub open spec fn jump_transition(pre: App, post: App) -> bool {
    &&& post.all_messages == pre.all_messages
    &&& post.spans == pre.spans
    &&& post.selected_area == pre.selected_area
    &&& post.messages.items == pre.messages.items
    &&& post.messages.state.offset == pre.messages.state.offset
    &&& post.messages.state.selected == (if pre.messages.items@.len() == 0 {
        Option::<usize>::None
    } else {
        Some((pre.messages.items@.len() - 1) as usize)
    })
    &&& crate::app::spec_detail_for(
        post.visible_views(),
        post.messages.state.selected,
        post.formatted_message,
    )
}

} // verus!
