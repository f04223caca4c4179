use vstd::prelude::*;

verus! {

/// Largest width or height of a 2D texture the device accepts.
pub const MAX_TEXTURE_2D: u32 = 8192;

/// Largest width, height or depth of a 3D texture the device accepts.
pub const MAX_TEXTURE_3D: u32 = 2048;

/// Largest buffer, in bytes, the device accepts.
pub const MAX_BUFFER_SIZE: u64 = 268435456;

/// Size of a texture (or of a dispatch grid) along its three axes.
#[derive(Clone, Copy, Debug, PartialEq, Eq, Structural)]
pub struct Extent {
    pub width: u32,
    pub height: u32,
    pub depth: u32,
}

#[derive(Clone, Copy, Debug, PartialEq, Eq, Structural)]
pub enum TextureDimension {
    D2,
    D3,
}

#[derive(Clone, Copy, Debug, PartialEq, Eq, Structural)]
pub enum TextureFormat {
    Rgba8UnormSrgb,
    Bgra8UnormSrgb,
    Rgba32Float,
    R16Float,
}

/// The ways a resource may be used once created.
#[derive(Clone, Copy, Debug, PartialEq, Eq, Structural)]
pub struct Usage {
    pub transfer_src: bool,
    pub transfer_dst: bool,
    pub uniform: bool,
    pub sampled: bool,
    pub storage: bool,
    pub vertex: bool,
    pub render_target: bool,
    pub map_write: bool,
}

#[derive(Clone, Copy, Debug, PartialEq, Eq, Structural)]
pub struct TextureDesc {
    pub dimension: TextureDimension,
    pub size: Extent,
    pub format: TextureFormat,
    pub usage: Usage,
}

/// What the registry is asked to allocate.
#[derive(Clone, Copy, Debug, PartialEq, Eq, Structural)]
pub enum ResourceDesc {
    Buffer { size: u64, usage: Usage },
    Texture(TextureDesc),
    Sampler,
}

/// Stable identity of a resource held by a [`ResourceRegistry`].
#[derive(Clone, Copy, Debug, PartialEq, Eq, Structural)]
pub struct ResourceHandle {
    pub id: usize,
}

/// How a view opens its resource.
#[derive(Clone, Copy, Debug, PartialEq, Eq, Structural)]
pub enum ViewAccess {
    UniformRead,
    SampledRead,
    StorageReadWrite,
    Filtering,
}

/// What a view can stand for in a binding slot.
#[derive(Clone, Copy, Debug, PartialEq, Eq, Structural)]
pub enum Capability {
    UniformBuffer,
    Sampler,
    SampledTexture(TextureDimension),
    StorageTexture(TextureDimension),
}

/// What a view stands for: its resource, and the slot capability it can
/// fill (`None` for a view that cannot be bound, such as the default view of
/// a texture that is only a copy destination).
#[derive(Clone, Copy, Debug, PartialEq, Eq, Structural)]
pub struct ViewModel {
    pub handle: ResourceHandle,
    pub capability: Option<Capability>,
}

/// A full-resource view. Only the registry makes one, so its capability
/// always agrees with the resource it opens.
#[derive(Clone, Copy, Debug, PartialEq, Eq, Structural)]
pub struct ResourceView {
    handle: ResourceHandle,
    capability: Option<Capability>,
}

impl View for ResourceView {
    type V = ViewModel;

    closed spec fn view(&self) -> ViewModel {
        ViewModel { handle: self.handle, capability: self.capability }
    }
}

impl ResourceView {
    pub fn handle(&self) -> (r: ResourceHandle)
        ensures
            r == self@.handle,
    {
        self.handle
    }

    pub fn capability(&self) -> (r: Option<Capability>)
        ensures
            r == self@.capability,
    {
        self.capability
    }
}

/// Raised when the device cannot hold the requested resource; `resource` is
/// the handle id it would have received.
#[derive(Clone, Copy, Debug, PartialEq, Eq, Structural)]
pub struct AllocationError {
    pub resource: usize,
}

/// A one-shot copy of host bytes, already placed in `staging`, into `texture`.
#[derive(Clone, Copy, Debug, PartialEq, Eq, Structural)]
pub struct TextureUpload {
    pub staging: ResourceHandle,
    pub texture: ResourceHandle,
    pub bytes_per_row: u32,
    pub rows_per_image: u32,
    pub extent: Extent,
}

pub open spec fn usage_any(u: Usage) -> bool {
    u.transfer_src || u.transfer_dst || u.uniform || u.sampled || u.storage || u.vertex
        || u.render_target || u.map_write
}

/// Formats that a compute stage may write as a storage texture.
pub open spec fn storage_capable(f: TextureFormat) -> bool {
    f == TextureFormat::Rgba32Float || f == TextureFormat::R16Float
}

pub open spec fn texture_supported(t: TextureDesc) -> bool {
    &&& usage_any(t.usage)
    &&& !t.usage.uniform && !t.usage.vertex && !t.usage.map_write
    &&& t.usage.storage ==> storage_capable(t.format)
    &&& t.size.width > 0 && t.size.height > 0 && t.size.depth > 0
    &&& match t.dimension {
        TextureDimension::D2 => t.size.depth == 1 && t.size.width <= MAX_TEXTURE_2D
            && t.size.height <= MAX_TEXTURE_2D,
        TextureDimension::D3 => t.size.width <= MAX_TEXTURE_3D && t.size.height
            <= MAX_TEXTURE_3D && t.size.depth <= MAX_TEXTURE_3D,
    }
}

/// Whether the device can allocate a resource of this description.
pub open spec fn supported(d: ResourceDesc) -> bool {
    match d {
        ResourceDesc::Buffer { size, usage } => 0 < size <= MAX_BUFFER_SIZE && usage_any(usage)
            && !usage.sampled && !usage.render_target,
        ResourceDesc::Texture(t) => texture_supported(t),
        ResourceDesc::Sampler => true,
    }
}

/// The capability of a view that opens a resource with the given access, if
/// the resource's kind and usage allow that access.
pub open spec fn view_capability(d: ResourceDesc, a: ViewAccess) -> Option<Capability> {
    match (d, a) {
        (ResourceDesc::Buffer { size, usage }, ViewAccess::UniformRead) => if usage.uniform {
            Some(Capability::UniformBuffer)
        } else {
            None
        },
        (ResourceDesc::Texture(t), ViewAccess::SampledRead) => if t.usage.sampled {
            Some(Capability::SampledTexture(t.dimension))
        } else {
            None
        },
        (ResourceDesc::Texture(t), ViewAccess::StorageReadWrite) => if t.usage.storage {
            Some(Capability::StorageTexture(t.dimension))
        } else {
            None
        },
        (ResourceDesc::Sampler, ViewAccess::Filtering) => Some(Capability::Sampler),
        _ => None,
    }
}

pub open spec fn bytes_per_texel(f: TextureFormat) -> int {
    match f {
        TextureFormat::Rgba8UnormSrgb => 4,
        TextureFormat::Bgra8UnormSrgb => 4,
        TextureFormat::Rgba32Float => 16,
        TextureFormat::R16Float => 2,
    }
}

/// A buffer sized to hold `len` bytes.
pub open spec fn buffer_desc(len: int, usage: Usage) -> ResourceDesc {
    ResourceDesc::Buffer { size: len as u64, usage }
}

/// Whether a buffer holding `len` given bytes can be allocated.
pub open spec fn buffer_supported(len: int, usage: Usage) -> bool {
    len <= MAX_BUFFER_SIZE && supported(buffer_desc(len, usage))
}

/// The default view's capability: sampled where the texture allows
/// sampling, else storage where it allows that, else none.
pub open spec fn default_capability(t: TextureDesc) -> Option<Capability> {
    if t.usage.sampled {
        Some(Capability::SampledTexture(t.dimension))
    } else if t.usage.storage {
        Some(Capability::StorageTexture(t.dimension))
    } else {
        None
    }
}

pub open spec fn staging_usage() -> Usage {
    Usage {
        transfer_src: true,
        transfer_dst: false,
        uniform: false,
        sampled: false,
        storage: false,
        vertex: false,
        render_target: false,
        map_write: false,
    }
}

pub open spec fn staging_desc(len: int) -> ResourceDesc {
    buffer_desc(len, staging_usage())
}

/// Initial contents in the registry's own terms: `None` is zero-filled.
pub open spec fn content_model(c: Option<Vec<u8>>) -> Option<Seq<u8>> {
    match c {
        Some(v) => Some(v@),
        None => None,
    }
}

fn is_supported(d: &ResourceDesc) -> (r: bool)
    ensures
        r == supported(*d),
{
    match d {
        ResourceDesc::Buffer { size, usage } => {
            let any = usage.transfer_src || usage.transfer_dst || usage.uniform || usage.sampled
                || usage.storage || usage.vertex || usage.render_target || usage.map_write;
            0 < *size && *size <= MAX_BUFFER_SIZE && any && !usage.sampled && !usage.render_target
        },
        ResourceDesc::Texture(t) => {
            let u = t.usage;
            let any = u.transfer_src || u.transfer_dst || u.uniform || u.sampled || u.storage
                || u.vertex || u.render_target || u.map_write;
            let storage_ok = !u.storage || t.format == TextureFormat::Rgba32Float || t.format
                == TextureFormat::R16Float;
            let s = t.size;
            let dims_ok = match t.dimension {
                TextureDimension::D2 => s.depth == 1 && s.width <= MAX_TEXTURE_2D && s.height
                    <= MAX_TEXTURE_2D,
                TextureDimension::D3 => s.width <= MAX_TEXTURE_3D && s.height <= MAX_TEXTURE_3D
                    && s.depth <= MAX_TEXTURE_3D,
            };
            any && !u.uniform && !u.vertex && !u.map_write && storage_ok && s.width > 0
                && s.height > 0 && s.depth > 0 && dims_ok
        },
        ResourceDesc::Sampler => true,
    }
}

fn texel_bytes(f: TextureFormat) -> (r: u32)
    ensures
        r as int == bytes_per_texel(f),
{
    match f {
        TextureFormat::Rgba8UnormSrgb => 4,
        TextureFormat::Bgra8UnormSrgb => 4,
        TextureFormat::Rgba32Float => 16,
        TextureFormat::R16Float => 2,
    }
}

/// Owns the description and initial content of every resource allocated
/// for the pipeline; a handle is the position of its resource in allocation
/// order.
pub struct ResourceRegistry {
    descs: Vec<ResourceDesc>,
    contents: Vec<Option<Vec<u8>>>,
}

impl View for ResourceRegistry {
    type V = Seq<ResourceDesc>;

    closed spec fn view(&self) -> Seq<ResourceDesc> {
        self.descs@
    }
}

impl ResourceRegistry {
    /// The initial content of each resource, by handle id: the bytes it was
    /// created with, or `None` for zero-filled.
    pub closed spec fn contents(&self) -> Seq<Option<Seq<u8>>> {
        self.contents@.map_values(|c: Option<Vec<u8>>| content_model(c))
    }

    pub closed spec fn wf(&self) -> bool {
        self.descs@.len() == self.contents@.len()
    }

    pub fn new() -> (r: ResourceRegistry)
        ensures
            r.wf(),
            r@ == Seq::<ResourceDesc>::empty(),
            r.contents() == Seq::<Option<Seq<u8>>>::empty(),
    {
        let r = ResourceRegistry { descs: Vec::new(), contents: Vec::new() };
        assert(r.contents() =~= Seq::<Option<Seq<u8>>>::empty());
        r
    }

    pub fn len(&self) -> (r: usize)
        ensures
            r == self@.len(),
    {
        self.descs.len()
    }

    /// The description a handle was created from, if the handle is known.
    pub fn desc(&self, h: ResourceHandle) -> (r: Option<ResourceDesc>)
        ensures
            r == (if h.id < self@.len() {
                Some(self@[h.id as int])
            } else {
                None
            }),
    {
        if h.id < self.descs.len() {
            Some(self.descs[h.id])
        } else {
            None
        }
    }

    /// The bytes a resource was created with; `None` when the handle is
    /// unknown or the resource starts zero-filled.
    pub fn initial_content(&self, h: ResourceHandle) -> (r: Option<&Vec<u8>>)
        requires
            self.wf(),
        ensures
            h.id >= self@.len() ==> r is None,
            h.id < self@.len() ==> match r {
                Some(v) => self.contents()[h.id as int] == Some(v@),
                None => self.contents()[h.id as int] is None,
            },
    {
        if h.id >= self.contents.len() {
            return None;
        }
        match &self.contents[h.id] {
            Some(v) => Some(v),
            None => None,
        }
    }

    fn push_entry(&mut self, d: ResourceDesc, c: Option<Vec<u8>>)
        requires
            old(self).wf(),
        ensures
            final(self).wf(),
            final(self)@ == old(self)@.push(d),
            final(self).contents() == old(self).contents().push(content_model(c)),
    {
        proof {
            assert(old(self).contents@.push(c).map_values(|c: Option<Vec<u8>>| content_model(c))
                =~= old(self).contents().push(content_model(c)));
        }
        self.descs.push(d);
        self.contents.push(c);
    }

    /// Allocates a zero-filled resource; fails when the device cannot hold
    /// it, in which case nothing is allocated.
    pub fn create(&mut self, d: ResourceDesc) -> (r: Result<ResourceHandle, AllocationError>)
        requires
            old(self).wf(),
            old(self)@.len() < usize::MAX,
        ensures
            final(self).wf(),
            supported(d) ==> r == Ok::<ResourceHandle, AllocationError>(
                ResourceHandle { id: old(self)@.len() as usize },
            ) && final(self)@ == old(self)@.push(d) && final(self).contents() == old(
                self,
            ).contents().push(None),
            !supported(d) ==> r == Err::<ResourceHandle, AllocationError>(
                AllocationError { resource: old(self)@.len() as usize },
            ) && final(self)@ == old(self)@ && final(self).contents() == old(self).contents(),
    {
        let id = self.descs.len();
        if is_supported(&d) {
            self.push_entry(d, None);
            Ok(ResourceHandle { id })
        } else {
            Err(AllocationError { resource: id })
        }
    }

    /// Allocates a buffer whose initial content is `data`, sized to hold it.
    pub fn create_buffer_with_data(&mut self, data: &[u8], usage: Usage) -> (r: Result<
        ResourceHandle,
        AllocationError,
    >)
        requires
            old(self).wf(),
            old(self)@.len() < usize::MAX,
        ensures
            final(self).wf(),
            buffer_supported(data@.len() as int, usage) ==> r == Ok::<
                ResourceHandle,
                AllocationError,
            >(ResourceHandle { id: old(self)@.len() as usize }) && final(self)@ == old(
                self,
            )@.push(buffer_desc(data@.len() as int, usage)) && final(self).contents() == old(
                self,
            ).contents().push(Some(data@)),
            !buffer_supported(data@.len() as int, usage) ==> r == Err::<
                ResourceHandle,
                AllocationError,
            >(AllocationError { resource: old(self)@.len() as usize }) && final(self)@ == old(
                self,
            )@ && final(self).contents() == old(self).contents(),
    {
        let id = self.descs.len();
        if data.len() as u64 > MAX_BUFFER_SIZE {
            return Err(AllocationError { resource: id });
        }
        let d = ResourceDesc::Buffer { size: data.len() as u64, usage };
        if is_supported(&d) {
            let bytes = vstd::slice::slice_to_vec(data);
            self.push_entry(d, Some(bytes));
            Ok(ResourceHandle { id })
        } else {
            Err(AllocationError { resource: id })
        }
    }

    /// The default full-resource view of `h`, opened with `access`; `None`
    /// when the handle is unknown or the resource does not allow that access.
    pub fn open_view(&self, h: ResourceHandle, access: ViewAccess) -> (r: Option<ResourceView>)
        ensures
            h.id >= self@.len() ==> r.is_none(),
            h.id < self@.len() ==> match view_capability(self@[h.id as int], access) {
                Some(c) => r matches Some(v) && v@ == (ViewModel {
                    handle: h,
                    capability: Some(c),
                }),
                None => r.is_none(),
            },
    {
        if h.id >= self.descs.len() {
            return None;
        }
        let cap = match (self.descs[h.id], access) {
            (ResourceDesc::Buffer { size, usage }, ViewAccess::UniformRead) => if usage.uniform {
                Some(Capability::UniformBuffer)
            } else {
                None
            },
            (ResourceDesc::Texture(t), ViewAccess::SampledRead) => if t.usage.sampled {
                Some(Capability::SampledTexture(t.dimension))
            } else {
                None
            },
            (ResourceDesc::Texture(t), ViewAccess::StorageReadWrite) => if t.usage.storage {
                Some(Capability::StorageTexture(t.dimension))
            } else {
                None
            },
            (ResourceDesc::Sampler, ViewAccess::Filtering) => Some(Capability::Sampler),
            _ => None,
        };
        match cap {
            Some(c) => Some(ResourceView { handle: h, capability: Some(c) }),
            None => None,
        }
    }

    /// Whether the host may map `length` bytes at `offset` of buffer `h` for writing.
    pub fn can_map_for_write(&self, h: ResourceHandle, offset: u64, length: u64) -> (r: bool)
        ensures
            r == (h.id < self@.len() && match self@[h.id as int] {
                ResourceDesc::Buffer { size, usage } => usage.map_write && offset as int
                    + length as int <= size as int,
                _ => false,
            }),
    {
        if h.id >= self.descs.len() {
            return false;
        }
        match self.descs[h.id] {
            ResourceDesc::Buffer { size, usage } => usage.map_write && offset <= size && length
                <= size - offset,
            _ => false,
        }
    }

    /// Allocates a texture, zero-filled, and a staging buffer whose content
    /// is `data` unchanged, and describes the copy of the whole staging
    /// buffer into the whole texture, to be submitted on its own. Returns the
    /// texture's default view with that copy.
    pub fn create_texture_view_with_data(&mut self, data: &[u8], desc: TextureDesc) -> (r:
        Result<(ResourceView, TextureUpload), AllocationError>)
        requires
            old(self).wf(),
            old(self)@.len() + 2 < usize::MAX,
        ensures
            final(self).wf(),
            match r {
                Ok((v, up)) => {
                    &&& texture_supported(desc)
                    &&& buffer_supported(data@.len() as int, staging_usage())
                    &&& final(self)@ == old(self)@.push(ResourceDesc::Texture(desc)).push(
                        staging_desc(data@.len() as int),
                    )
                    &&& final(self).contents() == old(self).contents().push(None).push(
                        Some(data@),
                    )
                    &&& v@ == (ViewModel {
                        handle: ResourceHandle { id: old(self)@.len() as usize },
                        capability: default_capability(desc),
                    })
                    &&& up.texture == v@.handle
                    &&& up.staging.id == old(self)@.len() + 1
                    &&& up.bytes_per_row as int == bytes_per_texel(desc.format)
                        * desc.size.width as int
                    &&& up.rows_per_image == desc.size.height
                    &&& up.extent == desc.size
                },
                Err(e) => {
                    &&& !(texture_supported(desc) && buffer_supported(
                        data@.len() as int,
                        staging_usage(),
                    ))
                    &&& final(self)@ == old(self)@
                    &&& final(self).contents() == old(self).contents()
                    &&& e.resource == old(self)@.len()
                },
            },
    {
        let base = self.descs.len();
        let tex = ResourceDesc::Texture(desc);
        if !is_supported(&tex) {
            return Err(AllocationError { resource: base });
        }
        if data.len() as u64 > MAX_BUFFER_SIZE || data.len() == 0 {
            return Err(AllocationError { resource: base });
        }
        let staging = ResourceDesc::Buffer {
            size: data.len() as u64,
            usage: Usage {
                transfer_src: true,
                transfer_dst: false,
                uniform: false,
                sampled: false,
                storage: false,
                vertex: false,
                render_target: false,
                map_write: false,
            },
        };
        assert(staging == staging_desc(data@.len() as int));
        let bytes = vstd::slice::slice_to_vec(data);
        self.push_entry(tex, None);
        self.push_entry(staging, Some(bytes));
        let bpp = texel_bytes(desc.format);
        assert(desc.size.width <= MAX_TEXTURE_2D);
        let capability = if desc.usage.sampled {
            Some(Capability::SampledTexture(desc.dimension))
        } else if desc.usage.storage {
            Some(Capability::StorageTexture(desc.dimension))
        } else {
            None
        };
        let view = ResourceView { handle: ResourceHandle { id: base }, capability };
        let up = TextureUpload {
            staging: ResourceHandle { id: base + 1 },
            texture: view.handle,
            bytes_per_row: bpp * desc.size.width,
            rows_per_image: desc.size.height,
            extent: desc.size,
        };
        Ok((view, up))
    }
}

} // verus!
