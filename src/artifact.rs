use crate::error::{DeserializeError, SerializeError};
use crate::header::{
    address_of, current_version, has_magic, header_bytes, le32, lemma_header_round_trip,
    MetadataHeader,
};
use vstd::prelude::*;
use wasmer_compiler::{
    CompileModuleInfo, CompiledFunctionFrameInfo, CustomSection, Dwarf, FunctionBody, Relocation,
    SectionIndex, Triple,
};
use wasmer_types::entity::PrimaryMap;
use wasmer_types::{Features, FunctionIndex, LocalFunctionIndex, ModuleInfo, SignatureIndex};

verus! {

#[verifier::external_type_specification]
#[verifier::external_body]
pub struct ExCompileModuleInfo(CompileModuleInfo);

#[verifier::external_type_specification]
#[verifier::external_body]
pub struct ExModuleInfo(ModuleInfo);

#[verifier::external_type_specification]
#[verifier::external_body]
pub struct ExFeatures(Features);

#[verifier::external_type_specification]
#[verifier::external_body]
pub struct ExTriple(Triple);

/// Where a data initializer writes: a memory, an optional global whose value
/// is added to the offset, and a constant offset.
#[derive(Clone, Copy, PartialEq, Eq, Structural, Debug)]
pub struct DataInitializerLocation {
    pub memory_index: u32,
    pub base: Option<u32>,
    pub offset: usize,
}

/// A data-section initializer that owns its bytes.
pub struct OwnedDataInitializer {
    pub location: DataInitializerLocation,
    pub data: Vec<u8>,
}

impl OwnedDataInitializer {
    /// An initializer owning a copy of `borrowed`'s bytes.
    pub fn new(borrowed: &DataInitializer<'_>) -> (r: OwnedDataInitializer)
        ensures
            r.location == borrowed.location,
            r.data@ == borrowed.data@,
    {
        let mut data: Vec<u8> = Vec::new();
        let mut i: usize = 0;
        while i < borrowed.data.len()
            invariant
                i <= borrowed.data@.len(),
                data@ == borrowed.data@.subrange(0, i as int),
            decreases borrowed.data@.len() - i,
        {
            data.push(borrowed.data[i]);
            assert(data@ =~= borrowed.data@.subrange(0, i + 1));
            i = i + 1;
        }
        assert(borrowed.data@.subrange(0, borrowed.data@.len() as int) =~= borrowed.data@);
        OwnedDataInitializer { location: borrowed.location, data }
    }
}

/// A data-section initializer that borrows its bytes.
pub struct DataInitializer<'a> {
    pub location: DataInitializerLocation,
    pub data: &'a [u8],
}

#[verifier::external_type_specification]
#[verifier::external_body]
pub struct ExCustomSection(CustomSection);

#[verifier::external_type_specification]
#[verifier::external_body]
pub struct ExRelocation(Relocation);

/// The code generator's per-function output: bodies, relocations, frame
/// information, call and dynamic-call trampolines, and debug information, in
/// the maps that the compiler produced.
#[verifier::external_body]
pub struct CompiledFunctions {
    pub function_bodies: PrimaryMap<LocalFunctionIndex, FunctionBody>,
    pub function_relocations: PrimaryMap<LocalFunctionIndex, Vec<Relocation>>,
    pub function_frame_info: PrimaryMap<LocalFunctionIndex, CompiledFunctionFrameInfo>,
    pub function_call_trampolines: PrimaryMap<SignatureIndex, FunctionBody>,
    pub dynamic_function_trampolines: PrimaryMap<FunctionIndex, FunctionBody>,
    pub debug: Option<Dwarf>,
}

/// The custom sections of a compiled module and, at the same index, the
/// relocations of each.
#[verifier::external_body]
pub struct CompiledSections {
    pub custom_sections: PrimaryMap<SectionIndex, CustomSection>,
    pub custom_section_relocations: PrimaryMap<SectionIndex, Vec<Relocation>>,
}

/// The custom sections of `c`, in index order.
pub uninterp spec fn custom_sections_of(c: CompiledSections) -> Seq<CustomSection>;

/// The relocation lists of the custom sections of `c`, in index order.
pub uninterp spec fn relocation_lists_of(c: CompiledSections) -> Seq<Seq<Relocation>>;

/// The relocations that a custom section carries.
pub uninterp spec fn section_relocations(s: CustomSection) -> Seq<Relocation>;

/// The module information that a module was compiled with.
pub uninterp spec fn module_info(info: CompileModuleInfo) -> ModuleInfo;

/// The features that a module was compiled with.
pub uninterp spec fn compiled_features(info: CompileModuleInfo) -> Features;

/// Relies on `PrimaryMap::len`: the number of custom sections.
#[verifier::external_body]
fn custom_section_len(c: &CompiledSections) -> (r: usize)
    ensures
        r == custom_sections_of(*c).len(),
{
    c.custom_sections.len()
}

/// Relies on `PrimaryMap::len`: the number of relocation lists.
#[verifier::external_body]
fn relocation_list_len(c: &CompiledSections) -> (r: usize)
    ensures
        r == relocation_lists_of(*c).len(),
{
    c.custom_section_relocations.len()
}

/// Relies on `PrimaryMap::push`, which appends and returns the key of the old
/// length (made by `EntityRef::new`, which asserts that it is below
/// `u32::MAX`), and `SectionIndex::as_u32`, which returns that number.
#[verifier::external_body]
fn push_custom_section(c: &mut CompiledSections, s: CustomSection) -> (r: u32)
    requires
        custom_sections_of(*old(c)).len() < u32::MAX,
    ensures
        r == custom_sections_of(*old(c)).len(),
        custom_sections_of(*final(c)) == custom_sections_of(*old(c)).push(s),
        relocation_lists_of(*final(c)) == relocation_lists_of(*old(c)),
{
    c.custom_sections.push(s).as_u32()
}

/// Relies on `PrimaryMap::push`, which appends (its key made by
/// `EntityRef::new`, which asserts that it is below `u32::MAX`).
#[verifier::external_body]
fn push_section_relocations(c: &mut CompiledSections, relocations: Vec<Relocation>)
    requires
        relocation_lists_of(*old(c)).len() < u32::MAX,
    ensures
        relocation_lists_of(*final(c)) == relocation_lists_of(*old(c)).push(relocations@),
        custom_sections_of(*final(c)) == custom_sections_of(*old(c)),
{
    c.custom_section_relocations.push(relocations);
}

/// Relies on the public field `CustomSection::relocations`, cloned.
#[verifier::external_body]
fn relocations_of(s: &CustomSection) -> (r: Vec<Relocation>)
    ensures
        r@ == section_relocations(*s),
{
    s.relocations.clone()
}

/// The compilation output together with where the target's library-call
/// trampolines were put: the index of their custom section and their length.
pub struct SerializableCompilation {
    pub functions: CompiledFunctions,
    pub sections: CompiledSections,
    pub libcall_trampolines: u32,
    pub libcall_trampoline_len: u32,
}

/// Appends the target's library-call trampoline section after the
/// compiler's custom sections, its relocations after theirs, and records
/// its index and length.
pub fn add_libcall_trampolines(c: &mut SerializableCompilation, section: CustomSection, len: u32) -> (r: u32)
    requires
        custom_sections_of(old(c).sections).len() < u32::MAX,
        relocation_lists_of(old(c).sections).len() < u32::MAX,
    ensures
        r == custom_sections_of(old(c).sections).len(),
        custom_sections_of(final(c).sections) == custom_sections_of(old(c).sections).push(section),
        relocation_lists_of(final(c).sections) == relocation_lists_of(old(c).sections).push(
            section_relocations(section),
        ),
        final(c).functions == old(c).functions,
        final(c).libcall_trampolines == r,
        final(c).libcall_trampoline_len == len,
{
    let relocations = relocations_of(&section);
    push_section_relocations(&mut c.sections, relocations);
    let index = push_custom_section(&mut c.sections, section);
    c.libcall_trampolines = index;
    c.libcall_trampoline_len = len;
    index
}

/// Everything needed to instantiate a compiled module later.
pub struct SerializableModule {
    pub compilation: SerializableCompilation,
    pub compile_info: CompileModuleInfo,
    pub data_initializers: Vec<OwnedDataInitializer>,
    pub cpu_features: u64,
}

impl SerializableModule {
    /// Packages the code generator's output with the target's library-call
    /// trampoline section (appended as the last custom section), the module
    /// information, the data initializers and the target's CPU feature bits.
    /// `None` when the compiler's sections, or their relocation lists, leave
    /// no index for one more.
    pub fn package(
        functions: CompiledFunctions,
        sections: CompiledSections,
        libcall_section: CustomSection,
        libcall_len: u32,
        compile_info: CompileModuleInfo,
        data_initializers: Vec<OwnedDataInitializer>,
        cpu_features: u64,
    ) -> (r: Option<SerializableModule>)
        ensures
            r is Some <==> custom_sections_of(sections).len() < u32::MAX
                && relocation_lists_of(sections).len() < u32::MAX,
            r matches Some(m) ==> {
                &&& m.compilation.functions == functions
                &&& custom_sections_of(m.compilation.sections) == custom_sections_of(
                    sections,
                ).push(libcall_section)
                &&& relocation_lists_of(m.compilation.sections) == relocation_lists_of(
                    sections,
                ).push(section_relocations(libcall_section))
                &&& m.compilation.libcall_trampolines == custom_sections_of(sections).len()
                &&& m.compilation.libcall_trampoline_len == libcall_len
                &&& m.compile_info == compile_info
                &&& m.data_initializers == data_initializers
                &&& m.cpu_features == cpu_features
            },
    {
        if custom_section_len(&sections) >= 4294967295usize || relocation_list_len(&sections)
            >= 4294967295usize {
            return None;
        }
        let mut compilation = SerializableCompilation {
            functions,
            sections,
            libcall_trampolines: 0,
            libcall_trampoline_len: 0,
        };
        add_libcall_trampolines(&mut compilation, libcall_section, libcall_len);
        Some(SerializableModule { compilation, compile_info, data_initializers, cpu_features })
    }
}

/// Relies on the public field `CompileModuleInfo::module`: a clone of the
/// module information that the module was compiled with.
#[verifier::external_body]
fn module_info_of(info: &CompileModuleInfo) -> (r: ModuleInfo)
    ensures
        r == module_info(*info),
{
    (*info.module).clone()
}

/// Relies on the public field `CompileModuleInfo::features`: the features the
/// module was compiled with.
#[verifier::external_body]
fn features_of(info: &CompileModuleInfo) -> (r: &Features)
    ensures
        *r == compiled_features(*info),
{
    &info.features
}

/// A compiled wasm module, ready to be instantiated.
pub struct UniversalArtifactBuild {
    serializable: SerializableModule,
}

impl UniversalArtifactBuild {
    /// The signature that once opened a serialized artifact; the probe of
    /// [`UniversalArtifactBuild::is_deserializable`] does not look for it.
    pub const MAGIC_HEADER: [u8; 16] = [
        119, 97, 115, 109, 101, 114, 45, 117, 110, 105, 118, 101, 114, 115, 97, 108,
    ];
    /// The module value that the artifact holds.
    pub closed spec fn spec_serializable(&self) -> SerializableModule {
        self.serializable
    }

    /// Whether `bytes` may be a serialized artifact. This probe checks nothing
    /// and accepts every buffer: the header check of [`unframe`] is where a
    /// foreign or outdated buffer is rejected.
    pub fn is_deserializable(_bytes: &[u8]) -> (r: bool)
        ensures
            r,
    {
        true
    }

    /// An artifact holding `serializable`.
    pub fn from_serializable(serializable: SerializableModule) -> (r: UniversalArtifactBuild)
        ensures
            r.spec_serializable() == serializable,
    {
        UniversalArtifactBuild { serializable }
    }

    /// The file extension of a serialized artifact, the same for every target.
    pub fn get_default_extension(_triple: &Triple) -> (r: &'static str)
        ensures
            r@ == "wasmu"@,
    {
        "wasmu"
    }

    /// The module value that the artifact holds.
    pub fn serializable(&self) -> (r: &SerializableModule)
        ensures
            *r == self.spec_serializable(),
    {
        &self.serializable
    }

    /// The module information, cloned for instantiation.
    pub fn create_module_info(&self) -> (r: ModuleInfo)
        ensures
            r == module_info(self.spec_serializable().compile_info),
    {
        module_info_of(&self.serializable.compile_info)
    }

    /// The features the module was compiled with.
    pub fn features(&self) -> (r: &Features)
        ensures
            *r == compiled_features(self.spec_serializable().compile_info),
    {
        features_of(&self.serializable.compile_info)
    }

    /// The CPU features the module was compiled for, as the bits of a feature set.
    pub fn cpu_feature_bits(&self) -> (r: u64)
        ensures
            r == self.spec_serializable().cpu_features,
    {
        self.serializable.cpu_features
    }

    /// The data initializers, each borrowing its bytes from the artifact.
    pub fn data_initializers(&self) -> (r: Vec<DataInitializer<'_>>)
        ensures
            r@.len() == self.spec_serializable().data_initializers@.len(),
            forall|i: int|
                #![trigger r@[i]]
                0 <= i < r@.len() ==> r@[i].location
                    == self.spec_serializable().data_initializers@[i].location && r@[i].data@
                    == self.spec_serializable().data_initializers@[i].data@,
    {
        let inits = &self.serializable.data_initializers;
        let mut r: Vec<DataInitializer<'_>> = Vec::new();
        let mut i: usize = 0;
        while i < inits.len()
            invariant
                i <= inits@.len(),
                inits@ == self.spec_serializable().data_initializers@,
                r@.len() == i,
                forall|j: int|
                    #![trigger r@[j]]
                    0 <= j < i ==> r@[j].location == inits@[j].location && r@[j].data@
                        == inits@[j].data@,
            decreases inits@.len() - i,
        {
            let init = &inits[i];
            r.push(DataInitializer { location: init.location, data: init.data.as_slice() });
            i = i + 1;
        }
        r
    }
}

/// Zero-copy view of a serialized module: the bytes are read in place.
#[derive(Clone, Copy)]
pub struct UniversalArtifactBuildRef<'a> {
    bytes: &'a [u8],
}

impl<'a> UniversalArtifactBuildRef<'a> {
    /// The bytes that the view reads.
    pub closed spec fn spec_bytes(&self) -> Seq<u8> {
        self.bytes@
    }

    /// A view over `bytes`, once [`UniversalArtifactBuild::is_deserializable`]
    /// has accepted them.
    pub fn try_from(bytes: &'a [u8]) -> (r: Result<UniversalArtifactBuildRef<'a>, DeserializeError>)
        ensures
            r matches Ok(v) && v.spec_bytes() == bytes@,
    {
        if !UniversalArtifactBuild::is_deserializable(bytes) {
            return Err(
                DeserializeError::Incompatible(
                    "The provided bytes are not wasmer-universal".to_string(),
                ),
            );
        }
        Ok(UniversalArtifactBuildRef { bytes })
    }

    /// The bytes that the view reads.
    pub fn bytes(&self) -> (r: &'a [u8])
        ensures
            r@ == self.spec_bytes(),
    {
        self.bytes
    }

    /// The serialized form of the viewed module: a copy of its bytes.
    pub fn serialize(&self) -> (r: Result<Vec<u8>, SerializeError>)
        ensures
            r matches Ok(v) && v@ == self.spec_bytes(),
    {
        Ok(vstd::slice::slice_to_vec(self.bytes))
    }
}

/// Serialized module bytes behind a [`MetadataHeader`] that records their
/// length; a payload whose length does not fit the header's 32-bit field is
/// refused.
pub fn frame(payload: &[u8]) -> (r: Result<Vec<u8>, SerializeError>)
    ensures
        payload@.len() <= u32::MAX ==> (r matches Ok(v) && v@ == header_bytes(
            payload@.len() as u32,
        ) + payload@),
        payload@.len() > u32::MAX ==> r matches Err(SerializeError::Generic(_)),
{
    if payload.len() > 4294967295usize {
        return Err(SerializeError::Generic("metadata exceeds maximum length".to_string()));
    }
    let header = MetadataHeader::new(payload.len());
    let mut out: Vec<u8> = Vec::new();
    let mut i: usize = 0;
    while i < 16
        invariant
            i <= 16,
            header@.len() == 16,
            out@ == header@.subrange(0, i as int),
        decreases 16 - i,
    {
        out.push(header[i]);
        assert(out@ =~= header@.subrange(0, i + 1));
        i = i + 1;
    }
    let mut j: usize = 0;
    while j < payload.len()
        invariant
            j <= payload@.len(),
            out@ == header@ + payload@.subrange(0, j as int),
        decreases payload@.len() - j,
    {
        out.push(payload[j]);
        assert(out@ =~= header@ + payload@.subrange(0, j + 1));
        j = j + 1;
    }
    assert(payload@.subrange(0, payload@.len() as int) =~= payload@);
    Ok(out)
}

/// The payload behind the header of `bytes`, whose first byte lies at
/// `address`: header faults are reported as [`MetadataHeader::parse_at`]
/// reports them, and a payload shorter than the header records is corrupted.
pub fn unframe_at(bytes: &[u8], address: usize) -> (r: Result<&[u8], DeserializeError>)
    ensures
        address % 16 != 0 ==> r matches Err(DeserializeError::CorruptedBinary(_)),
        address % 16 == 0 && bytes@.len() < 16 ==> r matches Err(
            DeserializeError::CorruptedBinary(_),
        ),
        address % 16 == 0 && bytes@.len() >= 16 && !has_magic(bytes@) ==> r matches Err(
            DeserializeError::Incompatible(_),
        ),
        address % 16 == 0 && bytes@.len() >= 16 && has_magic(bytes@) && le32(bytes@, 8)
            != current_version() ==> r matches Err(DeserializeError::Incompatible(_)),
        address % 16 == 0 && bytes@.len() >= 16 && has_magic(bytes@) && le32(bytes@, 8)
            == current_version() && bytes@.len() < 16 + le32(bytes@, 12) ==> r matches Err(
            DeserializeError::CorruptedBinary(_),
        ),
        address % 16 == 0 && bytes@.len() >= 16 && has_magic(bytes@) && le32(bytes@, 8)
            == current_version() && bytes@.len() >= 16 + le32(bytes@, 12) ==> (r matches Ok(p)
            && p@ == bytes@.subrange(16, 16 + le32(bytes@, 12))),
{
    let len = match MetadataHeader::parse_at(bytes, address) {
        Ok(len) => len,
        Err(e) => {
            return Err(e);
        },
    };
    if bytes.len() - 16 < len {
        return Err(DeserializeError::CorruptedBinary("truncated metadata".to_string()));
    }
    Ok(vstd::slice::slice_subrange(bytes, 16, 16 + len))
}

/// The payload behind the header at the start of `bytes`; a buffer that is
/// not aligned to [`MetadataHeader::ALIGN`] is corrupted.
pub fn unframe(bytes: &[u8]) -> (r: Result<&[u8], DeserializeError>)
    ensures
        bytes@.len() < 16 ==> r matches Err(DeserializeError::CorruptedBinary(_)),
        bytes@.len() >= 16 && !has_magic(bytes@) ==> r is Err,
        bytes@.len() >= 16 && le32(bytes@, 8) != current_version() ==> r is Err,
        r matches Ok(p) ==> has_magic(bytes@) && le32(bytes@, 8) == current_version()
            && bytes@.len() >= 16 + le32(bytes@, 12) && p@ == bytes@.subrange(
            16,
            16 + le32(bytes@, 12),
        ),
{
    let address = address_of(bytes);
    unframe_at(bytes, address)
}

/// Framing a payload and taking the frame apart again, from an aligned
/// address, gives back the payload.
pub proof fn lemma_frame_round_trip(payload: Seq<u8>)
    requires
        payload.len() <= u32::MAX,
    ensures
        ({
            let b = header_bytes(payload.len() as u32) + payload;
            &&& b.len() >= 16
            &&& has_magic(b)
            &&& le32(b, 8) == current_version()
            &&& le32(b, 12) == payload.len()
            &&& b.len() >= 16 + le32(b, 12)
            &&& b.subrange(16, 16 + le32(b, 12)) == payload
        }),
{
    let h = header_bytes(payload.len() as u32);
    let b = h + payload;
    lemma_header_round_trip(payload.len() as u32);
    assert(b.subrange(0, 8) =~= h.subrange(0, 8));
    assert(le32(b, 8) == le32(h, 8));
    assert(le32(b, 12) == le32(h, 12));
    assert(b.subrange(16, 16 + payload.len() as int) =~= payload);
}

} // verus!