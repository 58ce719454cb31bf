//! Presentation state: the device list a front end shows, the current
//! selection, and the chosen wipe method.  Rendering and input belong
//! to the presentation collaborator; this is the state it drives.

use vstd::prelude::*;
use crate::platform::{StorageDevice, WipeMethod};

verus! {

/// State behind the device-picker screen.
pub struct SecureWipeApp {
    pub available_devices: Vec<StorageDevice>,
    pub selected_device_index: Option<usize>,
    pub selected_wipe_method: WipeMethod,
}

impl SecureWipeApp {
    /// Fresh state: no devices, nothing selected, overwrite preselected.
    pub fn new() -> (app: SecureWipeApp)
        ensures
            app.available_devices@.len() == 0,
            app.selected_device_index is None,
            app.selected_wipe_method == WipeMethod::Overwrite,
    {
        SecureWipeApp {
            available_devices: Vec::new(),
            selected_device_index: None,
            selected_wipe_method: WipeMethod::Overwrite,
        }
    }

    /// Take over a freshly detected device list; the selection resets
    /// to the first device when there is one.
    pub fn refresh_devices(&mut self, devices: Vec<StorageDevice>)
        ensures
            final(self).available_devices@ =~= devices@,
            devices@.len() > 0 ==> final(self).selected_device_index == Some(0usize),
            devices@.len() == 0 ==> final(self).selected_device_index is None,
            final(self).selected_wipe_method == old(self).selected_wipe_method,
    {
        self.available_devices = devices;
        if self.available_devices.len() > 0 {
            self.selected_device_index = Some(0);
        } else {
            self.selected_device_index = None;
        }
    }

    /// Select a device by index; an index past the list is ignored.
    pub fn select_device(&mut self, index: usize)
        ensures
            index < old(self).available_devices@.len() ==> final(self).selected_device_index
                == Some(index),
            index >= old(self).available_devices@.len() ==> final(self).selected_device_index
                == old(self).selected_device_index,
            final(self).available_devices@ =~= old(self).available_devices@,
            final(self).selected_wipe_method == old(self).selected_wipe_method,
    {
        if index < self.available_devices.len() {
            self.selected_device_index = Some(index);
        }
    }

    /// Choose the wipe method for the next job.
    pub fn select_method(&mut self, method: WipeMethod)
        ensures
            final(self).selected_wipe_method == method,
            final(self).available_devices@ =~= old(self).available_devices@,
            final(self).selected_device_index == old(self).selected_device_index,
    {
        self.selected_wipe_method = method;
    }
}

} // verus!
