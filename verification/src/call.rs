//! Descriptions of engine calls.
//!
//! A capability operation that passes the dispatch guard and the marshaling
//! layer is handed out as one [`EngineCall`]: the engine entry point to
//! invoke together with its fully marshaled arguments. String arguments are
//! nul-terminated byte sequences, output buffers are pre-terminated byte
//! blocks paired with their signed 32-bit capacity, enumeration arguments
//! are already encoded as their integer codes, and pointers appear as plain
//! addresses (`0` standing for null). An embedder performs the foreign call
//! a value of this type describes and feeds raw outcomes back through the
//! decoding functions of this crate.

use vstd::prelude::*;

verus! {

/// One fully marshaled engine call, named after the engine entry point it
/// stands for.
#[derive(Debug, PartialEq, Eq)]
pub enum EngineCall {
    // Sender lifecycle.
    /// Set the sender name to a terminated byte string.
    SetSenderName { name: Vec<u8> },
    /// Set the sender DX11 shared texture format code.
    SetSenderFormat { format: u32 },
    /// Close the sender after the given delay in milliseconds.
    ReleaseSender { msec: u32 },
    /// Send the texture attached to a currently bound FBO.
    SendFbo { fbo_id: u32, width: u32, height: u32, invert: bool },
    /// Send an OpenGL texture.
    SendTexture {
        texture_id: u32,
        texture_target: u32,
        width: u32,
        height: u32,
        invert: bool,
        host_fbo: u32,
    },
    /// Send image pixels from the given address.
    SendImage { pixels: usize, width: u32, height: u32, gl_format: u32, invert: bool },
    /// Query the sender name; the engine returns a pointer it owns.
    GetName,
    /// Query the sender width.
    GetWidth,
    /// Query the sender height.
    GetHeight,
    /// Query the sender frame rate.
    GetFps,
    /// Query the sender frame number.
    GetFrame,
    /// Query the sender share handle.
    GetHandle,
    /// Query the sender CPU sharing method.
    GetCpu,
    /// Query the sender GL/DX hardware compatibility.
    GetGlDx,

    // Receiver lifecycle.
    /// Nominate the sender a receiver connects to.
    SetReceiverName { name: Vec<u8> },
    /// Close the receiver and release its resources.
    ReleaseReceiver,
    /// Receive into an OpenGL texture.
    ReceiveTexture { texture_id: u32, texture_target: u32, invert: bool, host_fbo: u32 },
    /// Receive image pixels into the buffer at the given address.
    ReceiveImage { pixels: usize, gl_format: u32, invert: bool, host_fbo: u32 },
    /// Query whether the connected sender has changed dimensions.
    IsUpdated,
    /// Query whether a sender is connected.
    IsConnected,
    /// Query whether the sender has produced a new frame.
    IsFrameNew,
    /// Query the connected sender's name; the engine returns a pointer it
    /// owns.
    GetSenderName,
    /// Query the connected sender's width.
    GetSenderWidth,
    /// Query the connected sender's height.
    GetSenderHeight,
    /// Query the connected sender's DirectX texture format.
    GetSenderFormat,
    /// Query the connected sender's frame rate.
    GetSenderFps,
    /// Query the connected sender's frame number.
    GetSenderFrame,
    /// Query the connected sender's share handle.
    GetSenderHandle,
    /// Query the connected sender's CPU sharing mode.
    GetSenderCpu,
    /// Query the connected sender's GL/DX compatibility.
    GetSenderGlDx,
    /// Open the sender selection dialog.
    SelectSender,

    // Frame counting and synchronization.
    /// Enable or disable frame counting globally.
    SetFrameCount { enable: bool },
    /// Disable frame counting for this application.
    DisableFrameCount,
    /// Query frame count status.
    IsFrameCountEnabled,
    /// Hold the sender frame rate.
    HoldFps { fps: i32 },
    /// Query the system refresh rate.
    GetRefreshRate,
    /// Signal a sync event for the named sender.
    SetFrameSync { name: Vec<u8> },
    /// Wait for or test a sync event, bounded by a timeout in milliseconds.
    WaitFrameSync { name: Vec<u8>, timeout: u32 },

    // Named memory buffers.
    /// Write `length` bytes (terminator included) to the named buffer.
    WriteMemoryBuffer { name: Vec<u8>, data: Vec<u8>, length: i32 },
    /// Read up to `max_length` bytes of the named buffer into `buffer`.
    ReadMemoryBuffer { name: Vec<u8>, buffer: Vec<u8>, max_length: i32 },
    /// Create a named shared memory buffer of the given byte length.
    CreateMemoryBuffer { name: Vec<u8>, length: i32 },
    /// Delete the shared memory buffer.
    DeleteMemoryBuffer,
    /// Query the byte size of the named buffer.
    GetMemoryBufferSize { name: Vec<u8> },

    // Console and logging control.
    /// Open the debugging console.
    OpenSpoutConsole,
    /// Close the debugging console, optionally with a warning dialog.
    CloseSpoutConsole { warning: bool },
    /// Enable engine logging.
    EnableSpoutLog,
    /// Log to the named file, appending when asked to.
    EnableSpoutLogFile { filename: Vec<u8>, append: bool },
    /// Query the accumulated engine log; the engine returns an owned string.
    GetSpoutLog,
    /// Show the engine logs.
    ShowSpoutLogs,
    /// Disable engine logging.
    DisableSpoutLog,
    /// Set the engine log level code.
    SetSpoutLogLevel { level: i32 },
    /// Show a message dialog that closes itself after the given timeout.
    SpoutMessageBox { message: Vec<u8>, milliseconds: u32 },

    // Information and timing.
    /// Query the engine version string; the engine returns an owned string.
    GetSdkVersion,
    /// Query whether the machine is a laptop.
    IsLaptop,
    /// Start timing a section.
    StartTiming,
    /// End timing a section.
    EndTiming,
    /// Query whether the instance is initialized.
    IsInitialized,
    /// Bind the shared texture for access.
    BindSharedTexture,
    /// Unbind the shared texture.
    UnbindSharedTexture,
    /// Query the shared texture identifier.
    GetSharedTextureId,

    // Sender registry.
    /// Query the number of senders.
    GetSenderCount,
    /// Fill `buffer` with the name of the sender at `index`.
    GetSender { index: i32, buffer: Vec<u8>, max_size: i32 },
    /// Query whether a sender of the given name exists.
    FindSenderName { name: Vec<u8> },
    /// Fill `buffer` with the name of the active sender.
    GetActiveSender { buffer: Vec<u8> },
    /// Make the named sender the active one.
    SetActiveSender { name: Vec<u8> },
    /// Query the buffering mode.
    GetBufferMode,
    /// Set the buffering mode.
    SetBufferMode { active: bool },
    /// Query the number of buffers.
    GetBuffers,
    /// Set the number of buffers.
    SetBuffers { buffers: i32 },
    /// Query the maximum number of senders.
    GetMaxSenders,
    /// Set the maximum number of senders.
    SetMaxSenders { max_senders: i32 },
    /// Create a named sender of the given size and format.
    CreateSender { name: Vec<u8>, width: u32, height: u32, format: u32 },
    /// Update the named sender to the given size.
    UpdateSender { name: Vec<u8>, width: u32, height: u32 },

    // Sharing modes.
    /// Query DirectX 9 mode.
    GetDx9,
    /// Set DirectX 9 mode.
    SetDx9 { dx9: bool },
    /// Query memory share mode.
    GetMemoryShareMode,
    /// Set memory share mode.
    SetMemoryShareMode { mem: bool },
    /// Query CPU sharing mode.
    GetCpuMode,
    /// Set CPU sharing mode.
    SetCpuMode { cpu: bool },
    /// Query the share mode code.
    GetShareMode,
    /// Set the share mode code.
    SetShareMode { mode: i32 },
    /// Open the sender selection panel.
    SelectSenderPanel,
    /// Fill `buffer` with the host path registered for the named sender.
    GetHostPath { name: Vec<u8>, buffer: Vec<u8>, max_chars: i32 },
    /// Query the vertical sync setting.
    GetVerticalSync,
    /// Set the vertical sync setting.
    SetVerticalSync { sync: bool },
    /// Query the engine version number.
    GetSpoutVersion,
    /// Query automatic sharing.
    GetAutoShare,
    /// Set automatic sharing.
    SetAutoShare { auto_share: bool },
    /// Query whether GL/DX interop is ready.
    IsGlDxReady,

    // Graphics adapters and preferences.
    /// Query the number of graphics adapters.
    GetNumAdapters,
    /// Fill `buffer` with the name of the adapter at `index`.
    GetAdapterName { index: i32, buffer: Vec<u8>, max_chars: i32 },
    /// Query the current adapter index.
    GetAdapter,
    /// Query the performance preference registered for an application path.
    GetPerformancePreference { path: Vec<u8> },
    /// Register a performance preference code for an application path.
    SetPerformancePreference { preference: i32, path: Vec<u8> },
    /// Fill `buffer` with the name of the adapter a preference code selects.
    GetPreferredAdapterName { preference: i32, buffer: Vec<u8>, max_chars: i32 },
    /// Select the adapter a preference code names.
    SetPreferredAdapter { preference: i32 },
    /// Query whether preference registration is available.
    IsPreferenceAvailable,
    /// Query whether the named path is an application path.
    IsApplicationPath { path: Vec<u8> },

    // OpenGL and DirectX contexts.
    /// Create an OpenGL context.
    CreateOpenGl,
    /// Close the OpenGL context.
    CloseOpenGl,
    /// Copy between OpenGL textures.
    CopyTexture {
        source_id: u32,
        source_target: u32,
        dest_id: u32,
        dest_target: u32,
        width: u32,
        height: u32,
        invert: bool,
        host_fbo: u32,
    },
    /// Open DirectX.
    OpenDirectX,
    /// Close DirectX.
    CloseDirectX,
    /// Open DirectX 11 on the device at the given address.
    OpenDirectX11 { device: usize },
    /// Close DirectX 11.
    CloseDirectX11,
    /// Query the DirectX 11 device pointer.
    GetDx11Device,
    /// Query the DirectX 11 context pointer.
    GetDx11Context,

    // Teardown.
    /// Release the engine instance.
    Release,
}

} // verus!
