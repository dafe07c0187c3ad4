//! Native shell-integration layer of a desktop application: tray session
//! control, background update lifecycle, and deep-link dispatch.
//!
//! The library holds the state machines and decision logic of the shell layer;
//! the operating-system calls themselves (windows, tray icons, notifications,
//! network transfers) are performed by the surrounding application, which hands
//! their outcomes to these verified functions as plain values.

pub mod bus;
pub mod deeplink;
pub mod sysinfo;
pub mod tray;
pub mod update;
