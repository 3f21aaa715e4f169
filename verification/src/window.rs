//! Windows as the renderer sees them: ids, physical sizes and presentation
//! settings. The platform event loop itself lives outside; this module holds
//! the decisions it takes on each event.
use vstd::prelude::*;
use crate::idmap::IdMap;
use crate::events::{CursorEntered, CursorLeft, FocusChanged, WindowResized};

verus! {

pub const PRIMARY_WINDOW_ID: usize = 0;

#[derive(Debug, Clone, Copy, Hash, PartialEq, Eq, Structural)]
pub struct WindowId(pub usize);

impl WindowId {
    /// A fresh id for a secondary window; the primary id is reserved.
    pub fn new(id: usize) -> (r: Self)
        requires
            id != PRIMARY_WINDOW_ID,
        ensures
            r.0 == id,
    {
        WindowId(id)
    }

    pub fn primary() -> (r: Self)
        ensures
            r.0 == PRIMARY_WINDOW_ID,
    {
        WindowId(PRIMARY_WINDOW_ID)
    }

    pub fn is_primary(&self) -> (r: bool)
        ensures
            r == (self.0 == PRIMARY_WINDOW_ID),
    {
        self.0 == PRIMARY_WINDOW_ID
    }
}

pub open spec fn window_key(id: WindowId) -> u64 {
    id.0 as u64
}

/// How the renderer's surface presents: the swap-chain scheduling policy.
#[derive(Clone, Copy, PartialEq, Eq, Structural, Debug)]
pub enum PresentModeModel {
    AutoVsync,
    AutoNoVsync,
    Immediate,
    Mailbox,
    Fifo,
}

/// How the surface's alpha channel composites with the desktop.
#[derive(Clone, Copy, PartialEq, Eq, Structural, Debug)]
pub enum AlphaModeModel {
    Auto,
    Opaque,
    PreMultiplied,
    PostMultiplied,
    Inherit,
}

/// What a window is built like; the renderer only reads it.
#[derive(Clone, Copy, PartialEq, Eq, Structural, Debug)]
pub struct WindowDescriptor {
}

impl Default for WindowDescriptor {
    fn default() -> (r: Self)
        ensures
            r == (WindowDescriptor {  }),
    {
        WindowDescriptor {  }
    }
}

/// A platform window's state as the renderer tracks it.
#[derive(Clone, Copy, PartialEq, Eq, Structural, Debug)]
pub struct Window {
    pub id: WindowId,
    pub physical_width: u32,
    pub physical_height: u32,
    pub present_mode: PresentModeModel,
    pub alpha_mode: AlphaModeModel,
}

impl Window {
    pub fn new(id: WindowId, _desc: &WindowDescriptor, physical_width: u32, physical_height: u32) -> (r: Self)
        ensures
            r == (Window {
                id,
                physical_width,
                physical_height,
                present_mode: PresentModeModel::Fifo,
                alpha_mode: AlphaModeModel::Auto,
            }),
    {
        Window {
            id,
            physical_width,
            physical_height,
            present_mode: PresentModeModel::Fifo,
            alpha_mode: AlphaModeModel::Auto,
        }
    }
}

/// The renderer-side window registry, with the next id to hand out.
pub struct Windows {
    pub map: IdMap<Window>,
    pub next_id: usize,
}

impl Windows {
    pub open spec fn wf(&self) -> bool {
        self.map.wf()
    }

    pub fn new() -> (r: Self)
        ensures
            r.wf(),
            r.map@ == Map::<u64, Window>::empty(),
            r.next_id == 1,
    {
        Windows { map: IdMap::new(), next_id: 1 }
    }

    pub fn add(&mut self, window: Window)
        requires
            old(self).wf(),
        ensures
            final(self).wf(),
            final(self).map@ == old(self).map@.insert(window_key(window.id), window),
            final(self).next_id == old(self).next_id,
    {
        self.map.insert(window.id.0 as u64, window);
    }

    /// Hands out the next window id, rising monotonically from 1 so it never
    /// collides with the primary id.
    pub fn reserve_id(&mut self) -> (r: WindowId)
        requires
            old(self).wf(),
            old(self).next_id < usize::MAX,
        ensures
            final(self).wf(),
            r.0 == old(self).next_id,
            final(self).next_id == old(self).next_id + 1,
            final(self).map@ == old(self).map@,
    {
        let id = WindowId(self.next_id);
        self.next_id = self.next_id + 1;
        id
    }
}

/// When closing a window ends the whole run.
#[derive(Clone, Copy, PartialEq, Eq, Structural, Debug)]
pub enum ExitOnWindowClose {
    Any,
    Primary,
    All,
}

/// The event loop's configuration.
#[derive(Clone, Copy, PartialEq, Eq, Structural, Debug)]
pub struct WinitSettings {
    pub exit_on_close: ExitOnWindowClose,
    pub run_return: bool,
}

/// What the windowing plugin is asked to set up.
#[derive(Clone, Copy, PartialEq, Eq, Structural, Debug)]
pub struct FlatWinitPlugin {
    pub create_primary_window: bool,
    pub exit_on_close: ExitOnWindowClose,
}

impl Default for FlatWinitPlugin {
    fn default() -> (r: Self)
        ensures
            r == (FlatWinitPlugin {
                create_primary_window: true,
                exit_on_close: ExitOnWindowClose::Any,
            }),
    {
        FlatWinitPlugin { create_primary_window: true, exit_on_close: ExitOnWindowClose::Any }
    }
}

/// One platform window event, reduced to what the renderer decides on.
#[derive(Clone, Copy, PartialEq, Eq, Structural, Debug)]
pub enum WindowEventModel {
    Resized { width: u32, height: u32 },
    CloseRequested,
    Focused { focused: bool },
    CursorEntered,
    CursorLeft,
    ScaleFactorChanged { width: u32, height: u32 },
    Other,
}

/// Everything one step of the event loop decides: whether to exit, which
/// window to drop, and which renderer events to emit.
#[derive(Clone, Copy, PartialEq, Eq, Structural, Debug)]
pub struct RunnerStep {
    pub exit: bool,
    pub window_removed: Option<WindowId>,
    pub resized: Option<WindowResized>,
    pub focus_changed: Option<FocusChanged>,
    pub cursor_entered: Option<CursorEntered>,
    pub cursor_left: Option<CursorLeft>,
}

pub open spec fn runner_step_nothing() -> RunnerStep {
    RunnerStep {
        exit: false,
        window_removed: None,
        resized: None,
        focus_changed: None,
        cursor_entered: None,
        cursor_left: None,
    }
}

/// The decision the event loop takes on one window event: size changes are
/// recorded and forwarded as resize events, and a close request follows the
/// exit policy — exit outright, exit only for the primary window, or drop the
/// window and exit once none is left.
pub fn handle_window_event(
    settings: &WinitSettings,
    windows: &mut Windows,
    window_id: WindowId,
    event: WindowEventModel,
) -> (r: RunnerStep)
    requires
        old(windows).wf(),
        (event matches WindowEventModel::Resized { .. }
            || event matches WindowEventModel::ScaleFactorChanged { .. })
            ==> old(windows).map@.dom().contains(window_key(window_id)),
    ensures
        final(windows).wf(),
        final(windows).next_id == old(windows).next_id,
        match event {
            WindowEventModel::Resized { width, height }
            | WindowEventModel::ScaleFactorChanged { width, height } => {
                &&& final(windows).map@ == old(windows).map@.insert(
                    window_key(window_id),
                    Window {
                        physical_width: width,
                        physical_height: height,
                        ..old(windows).map@[window_key(window_id)]
                    },
                )
                &&& r == (RunnerStep {
                    resized: Some(WindowResized { id: window_id, width, height }),
                    ..runner_step_nothing()
                })
            },
            WindowEventModel::CloseRequested => {
                &&& match settings.exit_on_close {
                    ExitOnWindowClose::Any => {
                        &&& final(windows).map@ == old(windows).map@
                        &&& r == (RunnerStep { exit: true, ..runner_step_nothing() })
                    },
                    ExitOnWindowClose::Primary => {
                        if window_id.0 == PRIMARY_WINDOW_ID {
                            &&& final(windows).map@ == old(windows).map@
                            &&& r == (RunnerStep { exit: true, ..runner_step_nothing() })
                        } else {
                            &&& final(windows).map@ == old(windows).map@.remove(
                                window_key(window_id),
                            )
                            &&& r == (RunnerStep {
                                exit: final(windows).map@.dom() =~= Set::<u64>::empty(),
                                window_removed: Some(window_id),
                                ..runner_step_nothing()
                            })
                        }
                    },
                    ExitOnWindowClose::All => {
                        &&& final(windows).map@ == old(windows).map@.remove(window_key(window_id))
                        &&& r == (RunnerStep {
                            exit: final(windows).map@.dom() =~= Set::<u64>::empty(),
                            window_removed: Some(window_id),
                            ..runner_step_nothing()
                        })
                    },
                }
            },
            WindowEventModel::Focused { focused } => {
                &&& final(windows).map@ == old(windows).map@
                &&& r == (RunnerStep {
                    focus_changed: Some(FocusChanged { window_id, focused }),
                    ..runner_step_nothing()
                })
            },
            WindowEventModel::CursorEntered => {
                &&& final(windows).map@ == old(windows).map@
                &&& r == (RunnerStep {
                    cursor_entered: Some(CursorEntered { window_id }),
                    ..runner_step_nothing()
                })
            },
            WindowEventModel::CursorLeft => {
                &&& final(windows).map@ == old(windows).map@
                &&& r == (RunnerStep {
                    cursor_left: Some(CursorLeft { window_id }),
                    ..runner_step_nothing()
                })
            },
            WindowEventModel::Other => {
                &&& final(windows).map@ == old(windows).map@
                &&& r == runner_step_nothing()
            },
        },
{
    let nothing = RunnerStep {
        exit: false,
        window_removed: None,
        resized: None,
        focus_changed: None,
        cursor_entered: None,
        cursor_left: None,
    };
    match event {
        WindowEventModel::Resized { width, height }
        | WindowEventModel::ScaleFactorChanged { width, height } => {
            let window = windows.map.get(window_id.0 as u64);
            let mut w = *window.unwrap();
            w.physical_width = width;
            w.physical_height = height;
            windows.map.insert(window_id.0 as u64, w);
            RunnerStep {
                resized: Some(WindowResized { id: window_id, width, height }),
                ..nothing
            }
        },
        WindowEventModel::CloseRequested => {
            match settings.exit_on_close {
                ExitOnWindowClose::Any => RunnerStep { exit: true, ..nothing },
                ExitOnWindowClose::Primary => {
                    if window_id.is_primary() {
                        RunnerStep { exit: true, ..nothing }
                    } else {
                        windows.map.remove(window_id.0 as u64);
                        let empty = windows.map.len() == 0;
                        proof {
                            if empty {
                                assert forall|k: u64| !windows.map@.dom().contains(k) by {
                                    if windows.map@.dom().contains(k) {
                                        let i = windows.map.index_of(k);
                                    }
                                }
                                assert(windows.map@.dom() =~= Set::<u64>::empty());
                            } else {
                                windows.map.lemma_entry_at(0);
                            }
                        }
                        RunnerStep { exit: empty, window_removed: Some(window_id), ..nothing }
                    }
                },
                ExitOnWindowClose::All => {
                    windows.map.remove(window_id.0 as u64);
                    let empty = windows.map.len() == 0;
                    proof {
                        if empty {
                            assert forall|k: u64| !windows.map@.dom().contains(k) by {
                                if windows.map@.dom().contains(k) {
                                    let i = windows.map.index_of(k);
                                }
                            }
                            assert(windows.map@.dom() =~= Set::<u64>::empty());
                        } else {
                            windows.map.lemma_entry_at(0);
                        }
                    }
                    RunnerStep { exit: empty, window_removed: Some(window_id), ..nothing }
                },
            }
        },
        WindowEventModel::Focused { focused } => RunnerStep {
            focus_changed: Some(FocusChanged { window_id, focused }),
            ..nothing
        },
        WindowEventModel::CursorEntered => RunnerStep {
            cursor_entered: Some(CursorEntered { window_id }),
            ..nothing
        },
        WindowEventModel::CursorLeft => RunnerStep {
            cursor_left: Some(CursorLeft { window_id }),
            ..nothing
        },
        WindowEventModel::Other => nothing,
    }
}

/// Registers windows for a batch of create events, in order: each gets added
/// to the registry and acknowledged with a created event.
pub fn register_created_windows(
    windows: &mut Windows,
    created: &Vec<Window>,
) -> (acks: Vec<crate::events::WindowCreated>)
    requires
        old(windows).wf(),
    ensures
        final(windows).wf(),
        final(windows).next_id == old(windows).next_id,
        final(windows).map@ == add_windows(old(windows).map@, created@),
        acks@.len() == created@.len(),
        forall|i: int| 0 <= i < created@.len() ==> (#[trigger] acks@[i]).id == created@[i].id,
{
    let ghost n = created@.len() as int;
    let mut acks: Vec<crate::events::WindowCreated> = Vec::new();
    proof {
        assert(created@.subrange(0, 0) =~= Seq::<Window>::empty());
    }
    let num = created.len();
    for i in 0..num
        invariant
            num == created@.len(),
            windows.wf(),
            windows.next_id == old(windows).next_id,
            windows.map@ == add_windows(old(windows).map@, created@.subrange(0, i as int)),
            acks@.len() == i,
            forall|k: int| 0 <= k < i ==> (#[trigger] acks@[k]).id == created@[k].id,
    {
        proof {
            assert(created@.subrange(0, i + 1).drop_last() =~= created@.subrange(0, i as int));
            assert(created@.subrange(0, i + 1).last() == created@[i as int]);
        }
        let w = created[i];
        windows.add(w);
        acks.push(crate::events::WindowCreated { id: w.id });
    }
    proof {
        assert(created@.subrange(0, num as int) =~= created@);
    }
    acks
}

/// The registry after adding a batch of windows in order.
pub open spec fn add_windows(map: Map<u64, Window>, created: Seq<Window>) -> Map<u64, Window>
    decreases created.len(),
{
    if created.len() == 0 {
        map
    } else {
        add_windows(map, created.drop_last()).insert(
            window_key(created.last().id),
            created.last(),
        )
    }
}

} // verus!
