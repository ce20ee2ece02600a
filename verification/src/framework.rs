use vstd::prelude::*;

verus! {

/// Which physical device the backend should prefer when several qualify.
#[derive(Clone, Copy, Debug, PartialEq, Eq, Structural)]
pub enum PowerPreference {
    /// The device that draws the least power, often an integrated GPU.
    LowPower,
    /// The fastest device, often a discrete GPU.
    HighPerformance,
}

/// The backends that adapter selection may draw from.
#[derive(Clone, Copy, Debug, PartialEq, Eq, Structural)]
pub struct Backends {
    /// Vulkan.
    pub vulkan: bool,
    /// OpenGL and OpenGL ES.
    pub gl: bool,
    /// Metal.
    pub metal: bool,
    /// Direct3D 12.
    pub dx12: bool,
    /// Direct3D 11.
    pub dx11: bool,
    /// WebGPU in a browser.
    pub browser_webgpu: bool,
}

impl Backends {
    /// Every backend: whichever one the machine offers may serve.
    pub open spec fn spec_all() -> Backends {
        Backends {
            vulkan: true,
            gl: true,
            metal: true,
            dx12: true,
            dx11: true,
            browser_webgpu: true,
        }
    }

    /// Every backend: whichever one the machine offers may serve.
    pub fn all() -> (backends: Backends)
        ensures
            backends == Backends::spec_all(),
    {
        Backends {
            vulkan: true,
            gl: true,
            metal: true,
            dx12: true,
            dx11: true,
            browser_webgpu: true,
        }
    }
}

/// Why a session could not be started. Both conditions are fatal at startup.
#[derive(Debug)]
pub enum StartupError {
    /// No compatible adapter was found for the selected backends.
    NoAdapter,
    /// The adapter refused to create a device; the payload is the backend's diagnostic.
    DeviceRefused(String),
}

/// `String::push_str` appends the given string slice to the end of the string.
pub assume_specification[ String::push_str ](text: &mut String, tail: &str)
    ensures
        final(text)@ == old(text)@ + tail@,
;

impl StartupError {
    /// The diagnostic the process ends with.
    pub open spec fn spec_message(&self) -> Seq<char> {
        match self {
            StartupError::NoAdapter => "Failed to find an appropriate adapter"@,
            StartupError::DeviceRefused(diagnostic) => "Failed at device creation: "@
                + diagnostic@,
        }
    }

    /// The diagnostic the process ends with.
    pub fn message(&self) -> (text: String)
        ensures
            text@ == self.spec_message(),
    {
        match self {
            StartupError::NoAdapter => "Failed to find an appropriate adapter".to_owned(),
            StartupError::DeviceRefused(diagnostic) => {
                let mut text = "Failed at device creation: ".to_owned();
                text.push_str(diagnostic.as_str());
                text
            },
        }
    }
}

/// What a device is asked to provide.
#[derive(Clone, Copy, Debug, PartialEq, Eq, Structural)]
pub struct DeviceRequest {
    /// Whether every feature the adapter supports is requested.
    pub all_adapter_features: bool,
    /// Whether the adapter's own limits are requested, rather than defaults.
    pub adapter_limits: bool,
}

/// The interval, in milliseconds, that the background poller sleeps between
/// two polls of the device.
pub const POLL_INTERVAL_MILLIS: u64 = 10;

/// What the background poller does next.
#[derive(Clone, Copy, Debug, PartialEq, Eq, Structural)]
pub enum PollerAction {
    /// Ask the device to process the asynchronous operations that completed.
    Poll,
    /// Sleep for `millis` milliseconds.
    Sleep { millis: u64 },
}

/// The background poller of a session. It drives the device's completion
/// callbacks, so that asynchronous operations make progress with nobody
/// waiting in the foreground: it polls, sleeps, and repeats, for as long as
/// the session lives. A session hands out its one poller when it starts.
#[derive(Debug)]
pub struct Poller {
    polled: bool,
}

impl Poller {
    /// The action the next step performs.
    pub closed spec fn spec_next(&self) -> PollerAction {
        if self.polled {
            PollerAction::Sleep { millis: POLL_INTERVAL_MILLIS }
        } else {
            PollerAction::Poll
        }
    }

    /// The action that follows `action` in the poller's loop.
    pub open spec fn spec_after(action: PollerAction) -> PollerAction {
        match action {
            PollerAction::Poll => PollerAction::Sleep { millis: POLL_INTERVAL_MILLIS },
            PollerAction::Sleep { .. } => PollerAction::Poll,
        }
    }

    /// Takes one step of the loop: returns the action to perform now, and
    /// moves on to the one that follows it. The loop never ends.
    pub fn step(&mut self) -> (action: PollerAction)
        ensures
            action == old(self).spec_next(),
            final(self).spec_next() == Poller::spec_after(action),
    {
        if self.polled {
            self.polled = false;
            PollerAction::Sleep { millis: POLL_INTERVAL_MILLIS }
        } else {
            self.polled = true;
            PollerAction::Poll
        }
    }
}

/// A running session: the owning context of a compute device and its queue.
///
/// A value of this type exists only once an adapter was found and a device
/// was created, so every buffer, program and kernel that borrows it belongs
/// to a live session.
#[derive(Debug)]
pub struct Framework {
    backends: Backends,
    power_preference: PowerPreference,
}

/// First stage of startup: an adapter is being selected.
#[derive(Debug)]
pub struct AdapterSearch {
    backends: Backends,
    power_preference: PowerPreference,
}

/// Second stage of startup: an adapter was found and a device is being requested.
#[derive(Debug)]
pub struct DeviceSetup {
    backends: Backends,
    power_preference: PowerPreference,
}

impl AdapterSearch {
    /// The backends to enumerate adapters from.
    pub closed spec fn spec_backends(&self) -> Backends {
        self.backends
    }

    /// The preference by which one adapter is picked.
    pub closed spec fn spec_power_preference(&self) -> PowerPreference {
        self.power_preference
    }

    /// The backends to enumerate adapters from.
    pub fn backends(&self) -> (backends: Backends)
        ensures
            backends == self.spec_backends(),
    {
        self.backends
    }

    /// The preference by which one adapter is picked.
    pub fn power_preference(&self) -> (preference: PowerPreference)
        ensures
            preference == self.spec_power_preference(),
    {
        self.power_preference
    }

    /// Takes the outcome of adapter selection. With an adapter the startup
    /// moves on to device creation under the same settings; without one it
    /// ends in `StartupError::NoAdapter`.
    pub fn resolve(self, adapter_found: bool) -> (next: Result<DeviceSetup, StartupError>)
        ensures
            adapter_found ==> next is Ok && next->Ok_0.spec_backends() == self.spec_backends()
                && next->Ok_0.spec_power_preference() == self.spec_power_preference(),
            !adapter_found ==> next is Err && next->Err_0 is NoAdapter,
    {
        if adapter_found {
            Ok(DeviceSetup { backends: self.backends, power_preference: self.power_preference })
        } else {
            Err(StartupError::NoAdapter)
        }
    }
}

impl DeviceSetup {
    /// The backends the adapter was selected from.
    pub closed spec fn spec_backends(&self) -> Backends {
        self.backends
    }

    /// The preference by which the adapter was picked.
    pub closed spec fn spec_power_preference(&self) -> PowerPreference {
        self.power_preference
    }

    /// What to ask the adapter for: a device with every feature the adapter
    /// supports, under the adapter's own limits.
    pub fn request(&self) -> (request: DeviceRequest)
        ensures
            request.all_adapter_features,
            request.adapter_limits,
    {
        DeviceRequest { all_adapter_features: true, adapter_limits: true }
    }

    /// Takes the outcome of device creation. On success the session is
    /// running, under the settings the startup began with, and comes with
    /// its poller, which is about to poll for the first time; a refusal ends
    /// the startup in `StartupError::DeviceRefused` with the backend's
    /// diagnostic unchanged.
    pub fn resolve(self, device: Result<(), String>) -> (next: Result<
        (Framework, Poller),
        StartupError,
    >)
        ensures
            device is Ok ==> next is Ok && next->Ok_0.0.spec_backends() == self.spec_backends()
                && next->Ok_0.0.spec_power_preference() == self.spec_power_preference()
                && next->Ok_0.1.spec_next() == PollerAction::Poll,
            device is Err ==> next is Err && next->Err_0 is DeviceRefused
                && next->Err_0->DeviceRefused_0 == device->Err_0,
    {
        match device {
            Ok(()) => Ok(
                (
                    Framework { backends: self.backends, power_preference: self.power_preference },
                    Poller { polled: false },
                ),
            ),
            Err(diagnostic) => Err(StartupError::DeviceRefused(diagnostic)),
        }
    }
}

impl Framework {
    /// The backends this session's adapter was selected from.
    pub closed spec fn spec_backends(&self) -> Backends {
        self.backends
    }

    /// The preference by which this session's adapter was picked.
    pub closed spec fn spec_power_preference(&self) -> PowerPreference {
        self.power_preference
    }

    /// Begins the startup of a session. `backends` and `power_preference`
    /// are what the process environment asks for; an absent choice falls
    /// back to any available backend and to the high-performance profile.
    pub fn default(
        backends: Option<Backends>,
        power_preference: Option<PowerPreference>,
    ) -> (search: AdapterSearch)
        ensures
            search.spec_backends() == match backends {
                Some(chosen) => chosen,
                None => Backends::spec_all(),
            },
            search.spec_power_preference() == match power_preference {
                Some(chosen) => chosen,
                None => PowerPreference::HighPerformance,
            },
    {
        let backends = match backends {
            Some(chosen) => chosen,
            None => Backends::all(),
        };
        let power_preference = match power_preference {
            Some(chosen) => chosen,
            None => PowerPreference::HighPerformance,
        };
        AdapterSearch { backends, power_preference }
    }

    /// The backends this session's adapter was selected from.
    pub fn backends(&self) -> (backends: Backends)
        ensures
            backends == self.spec_backends(),
    {
        self.backends
    }

    /// The preference by which this session's adapter was picked.
    pub fn power_preference(&self) -> (preference: PowerPreference)
        ensures
            preference == self.spec_power_preference(),
    {
        self.power_preference
    }
}

} // verus!
