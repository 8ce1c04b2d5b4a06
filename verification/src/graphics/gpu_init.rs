use vstd::prelude::*;

verus! {

#[verifier::external_type_specification]
#[verifier::external_body]
pub struct ExCreateSurfaceError(wgpu::CreateSurfaceError);

#[verifier::external_type_specification]
#[verifier::external_body]
pub struct ExRequestAdapterError(wgpu::RequestAdapterError);

#[verifier::external_type_specification]
#[verifier::external_body]
pub struct ExRequestDeviceError(wgpu::RequestDeviceError);

/// The bits of `wgpu::Backends::PRIMARY`.
///
/// Reads the constant's `bits()`; wgpu's source makes it Vulkan (bit 1), Metal (bit 2), Dx12
/// (bit 3) and the browser's WebGPU (bit 5), which the contract states.
#[verifier::external_body]
fn primary_backends() -> (bits: u32)
    ensures
        bits == 46,
{
    wgpu::Backends::PRIMARY.bits()
}

/// Graphics initialization errors
#[derive(Debug)]
pub enum GraphicsInitError {
    /// Surface Failed to be created
    Surface(wgpu::CreateSurfaceError),
    /// Adapter failed requesteding
    Adapter(wgpu::RequestAdapterError),
    /// Logical Device failed requesting
    Device(wgpu::RequestDeviceError),
    /// Graphics have already been initialized
    Initialized,
}

/// Which adapter to prefer
#[derive(Clone, Copy, Debug, PartialEq, Eq, Structural)]
pub enum PowerPreference {
    NoPreference,
    LowPower,
    HighPerformance,
}

/// How frames are presented to the surface
#[derive(Clone, Copy, Debug, PartialEq, Eq, Structural)]
pub enum PresentMode {
    AutoVsync,
    AutoNoVsync,
    Fifo,
    FifoRelaxed,
    Immediate,
    Mailbox,
}

/// What the graphics environment is set up with
#[derive(Clone, Copy, Debug, PartialEq, Eq, Structural)]
pub struct InitSettings {
    pub power_pref: PowerPreference,
    pub present_mode: PresentMode,
    /// The most frames between taking a surface texture and presenting it
    pub frame_latency: u32,
    /// The graphics apis to use, as the bits of `wgpu::Backends`
    pub back_end: u32,
}

/// Initializes the graphics environment for a given window
pub struct GraphicsInit {
    settings: InitSettings,
    is_initialized: bool,
}

impl GraphicsInit {
    /// The settings the environment is set up with
    pub closed spec fn settings(&self) -> InitSettings {
        self.settings
    }

    /// Whether the environment was set up already
    pub closed spec fn initialized(&self) -> bool {
        self.is_initialized
    }

    /// No power preference, first-in-first-out presentation, a latency of two frames and the
    /// primary apis
    pub fn new() -> (init: Self)
        ensures
            init.settings() == (InitSettings {
                power_pref: PowerPreference::NoPreference,
                present_mode: PresentMode::Fifo,
                frame_latency: 2,
                back_end: 46,
            }),
            !init.initialized(),
    {
        Self {
            settings: InitSettings {
                power_pref: PowerPreference::NoPreference,
                present_mode: PresentMode::Fifo,
                frame_latency: 2,
                back_end: primary_backends(),
            },
            is_initialized: false,
        }
    }

    /// Set the power preference for the instance adapter
    pub fn with_power_pref(self, power_pref: PowerPreference) -> (init: Self)
        ensures
            init.settings() == (InitSettings { power_pref, ..self.settings() }),
            init.initialized() == self.initialized(),
    {
        let mut init = self;
        init.settings.power_pref = power_pref;
        init
    }

    /// Set the presentation mode for the rendering surface
    pub fn with_present_mode(self, present_mode: PresentMode) -> (init: Self)
        ensures
            init.settings() == (InitSettings { present_mode, ..self.settings() }),
            init.initialized() == self.initialized(),
    {
        let mut init = self;
        init.settings.present_mode = present_mode;
        init
    }

    /// Set the max frame latency between surface texture requests and surface presentation.
    pub fn with_max_latency(self, latency: u32) -> (init: Self)
        ensures
            init.settings() == (InitSettings { frame_latency: latency, ..self.settings() }),
            init.initialized() == self.initialized(),
    {
        let mut init = self;
        init.settings.frame_latency = latency;
        init
    }

    /// Set the target graphics api backends, as the bits of `wgpu::Backends`. This is platform
    /// specific.
    pub fn with_backend(self, backend: u32) -> (init: Self)
        ensures
            init.settings() == (InitSettings { back_end: backend, ..self.settings() }),
            init.initialized() == self.initialized(),
    {
        let mut init = self;
        init.settings.back_end = backend;
        init
    }

    /// Start initializing the graphics environment: the first call hands back the settings to
    /// set the gpu up with; every later call is refused with `Initialized`. Whatever becomes of
    /// the setup, the environment counts as initialized from the first call on.
    pub fn init(&mut self) -> (result: Result<InitSettings, GraphicsInitError>)
        ensures
            old(self).initialized() ==> result matches Err(GraphicsInitError::Initialized),
            !old(self).initialized() ==> result == Ok::<InitSettings, GraphicsInitError>(old(self).settings()),
            final(self).initialized(),
            final(self).settings() == old(self).settings(),
    {
        if self.is_initialized {
            return Err(GraphicsInitError::Initialized);
        }
        self.is_initialized = true;
        Ok(self.settings)
    }
}

} // verus!
