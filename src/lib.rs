// Caps Lock / Num Lock tray indicator: the snapshot of the two keys, the icon
// and splash choices for a change, and the ticketed delayed hide of the splash.
pub mod indicator;
pub mod laws;
pub mod notifier;
pub mod state;
