//! The main window: the media panel beside the OSC panel.

use vstd::prelude::*;
use crate::media::MediaPlayer;
use crate::osc::OscManagement;

verus! {

/// The window's content: the media panel and the OSC panel.
pub struct HelloWorld {
    pub mp: MediaPlayer,
    pub oscm: OscManagement,
}

impl HelloWorld {
    /// A window that has heard from no player and holds no connection.
    pub fn new() -> (w: Self)
        ensures
            w.mp.last_state is None,
            w.oscm.conn is None,
    {
        HelloWorld { mp: MediaPlayer::new(), oscm: OscManagement::new() }
    }
}

} // verus!
