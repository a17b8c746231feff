//! Shader assets: opaque WGSL source text with an identity, a registry that
//! tracks the loading state of each requested shader, and the per-renderer
//! shader state (compiled modules plus the well-known default handles).
//!
//! Shader source is treated as opaque text: the only validation performed is
//! UTF-8 decoding, which fails with a typed load error.

use vstd::prelude::*;
use std::collections::HashMap;
use vstd::utf8::{valid_utf8, decode_utf8};

verus! {

/// Path of the default 3D shader source file.
pub const DEFAULT_3D_SHADER: &'static str = "shaders/default.wgsl";

/// Path of the default 2D shader source file.
pub const DEFAULT_2D_SHADER: &'static str = "shaders/default_2d.wgsl";

/// Loaded shader source text. Immutable after load.
#[derive(Debug)]
pub struct Shader {
    pub(crate) shader_content: String,
}

impl View for Shader {
    type V = Seq<char>;

    closed spec fn view(&self) -> Seq<char> {
        self.shader_content@
    }
}

impl Shader {
    /// Wraps already-decoded shader source text.
    pub fn new(shader_content: String) -> (s: Shader)
        ensures
            s@ == shader_content@,
    {
        Shader { shader_content }
    }

    /// The shader's source text.
    pub fn content(&self) -> (r: &String)
        ensures
            r@ == self@,
    {
        &self.shader_content
    }
}

/// Decodes raw shader bytes into [`Shader`] values.
#[derive(Default)]
pub struct ShaderAssetLoader;

/// Error raised when a shader asset cannot be loaded.
#[derive(Clone, Copy, Debug, PartialEq, Eq, Structural)]
pub enum ShaderAssetLoaderError {
    CouldNotLoad,
}

/// Relies on `String::from_utf8`: it succeeds exactly on valid UTF-8 input,
/// and then decodes the bytes to the corresponding character sequence.
#[verifier::external_body]
fn string_from_utf8(bytes: Vec<u8>) -> (r: Option<String>)
    ensures
        r is Some <==> valid_utf8(bytes@),
        r is Some ==> r.unwrap()@ == decode_utf8(bytes@),
{
    String::from_utf8(bytes).ok()
}

impl ShaderAssetLoader {
    /// Decodes the raw bytes of a shader source file. The bytes are passed
    /// through opaquely except for UTF-8 decoding, which is the only
    /// validation performed.
    pub fn load(&self, bytes: Vec<u8>) -> (r: Result<Shader, ShaderAssetLoaderError>)
        ensures
            r is Ok <==> valid_utf8(bytes@),
            r is Ok ==> r.unwrap()@ == decode_utf8(bytes@),
            r is Err ==> r.unwrap_err() == ShaderAssetLoaderError::CouldNotLoad,
    {
        match string_from_utf8(bytes) {
            Some(shader_content) => Ok(Shader { shader_content }),
            None => Err(ShaderAssetLoaderError::CouldNotLoad),
        }
    }

    /// The file extension served by this loader.
    pub fn extensions(&self) -> (r: &'static str)
        ensures
            r@ == "wgsl"@,
    {
        "wgsl"
    }
}

/// Loading state of one registered shader, as a caller observes it.
#[derive(Clone, Copy, Debug, PartialEq, Eq, Structural)]
pub enum ShaderLoadState {
    Loading,
    Loaded,
    Failed,
}

/// Error returned when shader content is requested before its load completed.
#[derive(Clone, Copy, Debug, PartialEq, Eq, Structural)]
pub enum ShaderRegistryError {
    NotLoaded,
}

/// One slot of the registry: a requested shader and how far its load has come.
pub enum ShaderEntry {
    Pending { path: String },
    Ready { path: String, shader: Shader },
    Failed { path: String },
}

/// Holds the shader source text for every requested shader, keyed by the
/// handle that [`ShaderRegistry::load`] returned for it.
///
/// Loading is asynchronous: `load` allocates a handle at once, the caller
/// later hands the file's raw bytes to [`ShaderRegistry::complete_load`], and
/// only then does [`ShaderRegistry::get`] stop failing with `NotLoaded`.
pub struct ShaderRegistry {
    slots: Vec<ShaderEntry>,
}

impl View for ShaderRegistry {
    type V = Seq<ShaderEntry>;

    closed spec fn view(&self) -> Seq<ShaderEntry> {
        self.slots@
    }
}

impl ShaderRegistry {
    /// An empty registry: no shader has been requested yet.
    pub fn new() -> (r: ShaderRegistry)
        ensures
            r@.len() == 0,
    {
        ShaderRegistry { slots: Vec::new() }
    }

    /// Requests the shader at `path` and returns its handle. The content is
    /// not available until a later [`ShaderRegistry::complete_load`] for this
    /// handle succeeds.
    pub fn load(&mut self, path: String) -> (h: u64)
        requires
            old(self)@.len() < u64::MAX,
        ensures
            h == old(self)@.len(),
            final(self)@ == old(self)@.push(ShaderEntry::Pending { path: path }),
    {
        let h = self.slots.len() as u64;
        self.slots.push(ShaderEntry::Pending { path });
        h
    }

    /// How many shaders have been requested so far.
    pub fn len(&self) -> (n: usize)
        ensures
            n == self@.len(),
    {
        self.slots.len()
    }

    /// The loading state of handle `h`, or `None` for a handle this registry
    /// never returned.
    pub fn load_state(&self, h: u64) -> (r: Option<ShaderLoadState>)
        ensures
            r is Some <==> h < self@.len(),
            h < self@.len() ==> r == Some(match self@[h as int] {
                ShaderEntry::Pending { .. } => ShaderLoadState::Loading,
                ShaderEntry::Ready { .. } => ShaderLoadState::Loaded,
                ShaderEntry::Failed { .. } => ShaderLoadState::Failed,
            }),
    {
        if h < self.slots.len() as u64 {
            match &self.slots[h as usize] {
                ShaderEntry::Pending { .. } => Some(ShaderLoadState::Loading),
                ShaderEntry::Ready { .. } => Some(ShaderLoadState::Loaded),
                ShaderEntry::Failed { .. } => Some(ShaderLoadState::Failed),
            }
        } else {
            None
        }
    }

    /// Completes the load of handle `h` with the raw bytes read from its
    /// file. Decoding is UTF-8 only: invalid bytes fail the load and mark the
    /// slot failed.
    pub fn complete_load(&mut self, h: u64, bytes: Vec<u8>) -> (r: Result<
        (),
        ShaderAssetLoaderError,
    >)
        requires
            h < old(self)@.len(),
            old(self)@[h as int] is Pending,
        ensures
            r is Ok <==> valid_utf8(bytes@),
            final(self)@.len() == old(self)@.len(),
            forall|i: int|
                0 <= i < old(self)@.len() && i != h ==> final(self)@[i] == old(self)@[i],
            r is Ok ==> (final(self)@[h as int] matches ShaderEntry::Ready { path, shader }
                && path@ == old(self)@[h as int]->Pending_path@
                && shader@ == decode_utf8(bytes@)),
            r is Err ==> (final(self)@[h as int] matches ShaderEntry::Failed { path }
                && path@ == old(self)@[h as int]->Pending_path@),
            r is Err ==> r->Err_0 == ShaderAssetLoaderError::CouldNotLoad,
    {
        // an exec read of the length bounds `h` within usize range for the cast
        let n = self.slots.len();
        let i = h as usize;
        let path = match &self.slots[i] {
            ShaderEntry::Pending { path } => path.clone(),
            ShaderEntry::Ready { path, .. } => path.clone(),
            ShaderEntry::Failed { path } => path.clone(),
        };
        let loader = ShaderAssetLoader;
        match loader.load(bytes) {
            Ok(shader) => {
                self.slots.set(i, ShaderEntry::Ready { path, shader });
                Ok(())
            },
            Err(e) => {
                self.slots.set(i, ShaderEntry::Failed { path });
                Err(e)
            },
        }
    }

    /// Records that the load of handle `h` failed before any bytes arrived
    /// (an unreadable file): the slot is marked failed and keeps its path,
    /// so [`ShaderRegistry::get`] keeps failing with `NotLoaded`.
    pub fn fail_load(&mut self, h: u64)
        requires
            h < old(self)@.len(),
            old(self)@[h as int] is Pending,
        ensures
            final(self)@.len() == old(self)@.len(),
            forall|i: int|
                0 <= i < old(self)@.len() && i != h ==> final(self)@[i] == old(self)@[i],
            (final(self)@[h as int] matches ShaderEntry::Failed { path }
                && path@ == old(self)@[h as int]->Pending_path@),
    {
        // an exec read of the length bounds `h` within usize range for the cast
        let n = self.slots.len();
        let i = h as usize;
        let path = match &self.slots[i] {
            ShaderEntry::Pending { path } => path.clone(),
            ShaderEntry::Ready { path, .. } => path.clone(),
            ShaderEntry::Failed { path } => path.clone(),
        };
        self.slots.set(i, ShaderEntry::Failed { path });
    }

    /// The path that was requested for handle `h`.
    pub fn path(&self, h: u64) -> (r: Option<&String>)
        ensures
            r is Some <==> h < self@.len(),
            h < self@.len() ==> r.unwrap()@ == (match self@[h as int] {
                ShaderEntry::Pending { path } => path@,
                ShaderEntry::Ready { path, .. } => path@,
                ShaderEntry::Failed { path } => path@,
            }),
    {
        if h < self.slots.len() as u64 {
            match &self.slots[h as usize] {
                ShaderEntry::Pending { path } => Some(path),
                ShaderEntry::Ready { path, .. } => Some(path),
                ShaderEntry::Failed { path } => Some(path),
            }
        } else {
            None
        }
    }

    /// The content of shader `h`; fails with `NotLoaded` unless the load for
    /// `h` has completed successfully.
    pub fn get(&self, h: u64) -> (r: Result<&Shader, ShaderRegistryError>)
        ensures
            r is Ok <==> h < self@.len() && self@[h as int] is Ready,
            r is Ok ==> *r->Ok_0 == self@[h as int]->Ready_shader,
            r is Err ==> r->Err_0 == ShaderRegistryError::NotLoaded,
    {
        if h < self.slots.len() as u64 {
            match &self.slots[h as usize] {
                ShaderEntry::Ready { shader, .. } => Ok(shader),
                _ => Err(ShaderRegistryError::NotLoaded),
            }
        } else {
            Err(ShaderRegistryError::NotLoaded)
        }
    }
}

/// Per-renderer shader state: the compiled shader module for each shader that
/// has one, and the handles of the well-known default shaders (index 0 is the
/// default 3D shader, index 1 the default 2D shader).
///
/// The module type is a parameter so that the resolution logic can be
/// exercised with a stand-in where no GPU device exists; the renderer uses
/// `wgpu::ShaderModule`.
pub struct ShadersState<M> {
    pub loaded_shader_modules: HashMap<u64, M>,
    pub shader_handles: Vec<u64>,
}

impl<M> ShadersState<M> {
    /// An empty shader state.
    pub fn new() -> (r: ShadersState<M>)
        ensures
            r.loaded_shader_modules@ == Map::<u64, M>::empty(),
            r.shader_handles@.len() == 0,
    {
        ShadersState { loaded_shader_modules: HashMap::new(), shader_handles: Vec::new() }
    }
}

} // verus!
