use std::sync::Arc;
use wasmer_artifact_core::artifact::{
    add_libcall_trampolines, frame, unframe, unframe_at, CompiledFunctions, CompiledSections, DataInitializerLocation, OwnedDataInitializer,
    SerializableCompilation, SerializableModule, UniversalArtifactBuild,
    UniversalArtifactBuildRef,
};
use wasmer_artifact_core::error::DeserializeError;
use wasmer_compiler::{
    CompileModuleInfo, CustomSection, CustomSectionProtection, Relocation, RelocationKind,
    RelocationTarget, SectionBody, SectionIndex, Triple,
};
use wasmer_types::entity::{EntityRef, PrimaryMap};
use wasmer_types::{ExportIndex, Features, FunctionIndex, ModuleInfo};

fn no_functions() -> CompiledFunctions {
    CompiledFunctions {
        function_bodies: PrimaryMap::new(),
        function_relocations: PrimaryMap::new(),
        function_frame_info: PrimaryMap::new(),
        function_call_trampolines: PrimaryMap::new(),
        dynamic_function_trampolines: PrimaryMap::new(),
        debug: None,
    }
}

fn no_sections() -> CompiledSections {
    CompiledSections {
        custom_sections: PrimaryMap::new(),
        custom_section_relocations: PrimaryMap::new(),
    }
}

fn info() -> CompileModuleInfo {
    CompileModuleInfo {
        features: Features::new(),
        module: Arc::new(ModuleInfo::new()),
        memory_styles: PrimaryMap::new(),
        table_styles: PrimaryMap::new(),
    }
}

fn section(byte: u8) -> CustomSection {
    CustomSection {
        protection: CustomSectionProtection::ReadExecute,
        bytes: SectionBody::new_with_vec(vec![byte; 4]),
        relocations: vec![],
    }
}

fn module(exported_functions: usize, data: Vec<OwnedDataInitializer>) -> SerializableModule {
    let mut info = ModuleInfo::new();
    for i in 0..exported_functions {
        info.exports
            .insert(format!("f{}", i), ExportIndex::Function(FunctionIndex::new(i)));
    }
    SerializableModule {
        compilation: SerializableCompilation {
            functions: no_functions(),
            sections: no_sections(),
            libcall_trampolines: 0,
            libcall_trampoline_len: 0,
        },
        compile_info: CompileModuleInfo {
            features: Features::new(),
            module: Arc::new(info),
            memory_styles: PrimaryMap::new(),
            table_styles: PrimaryMap::new(),
        },
        data_initializers: data,
        cpu_features: 0b101,
    }
}

#[test]
fn frame_then_unframe_gives_the_payload_back() {
    for payload in [vec![], vec![7u8], (0..=255u8).collect::<Vec<_>>()] {
        let framed = frame(&payload).ok().unwrap();
        assert_eq!(framed.len(), 16 + payload.len());
        assert_eq!(&framed[0..8], b"WASMER\0\0");
        assert_eq!(unframe_at(&framed, 0).ok(), Some(&payload[..]));
    }
}

#[test]
fn unframe_at_other_version_is_incompatible() {
    let mut framed = frame(&[1, 2, 3]).ok().unwrap();
    framed[8] += 1;
    assert!(matches!(
        unframe_at(&framed, 0),
        Err(DeserializeError::Incompatible(_))
    ));
}

#[test]
fn unframe_at_truncated_payload_is_corrupted() {
    let framed = frame(&[1, 2, 3, 4]).ok().unwrap();
    assert!(matches!(
        unframe_at(&framed[..18], 0),
        Err(DeserializeError::CorruptedBinary(_))
    ));
}

#[test]
fn unframe_at_keeps_only_the_recorded_length() {
    let mut framed = frame(&[1, 2]).ok().unwrap();
    framed.extend_from_slice(&[3, 4]);
    assert_eq!(unframe_at(&framed, 32).ok(), Some(&[1u8, 2][..]));
}

#[test]
fn unframe_at_foreign_bytes_is_incompatible() {
    let bytes = b"wasmer-universal and then some more bytes";
    assert!(matches!(
        unframe_at(bytes, 0),
        Err(DeserializeError::Incompatible(_))
    ));
}

#[test]
fn unframe_short_buffer_is_corrupted() {
    assert!(matches!(
        unframe(&[0u8; 8]),
        Err(DeserializeError::CorruptedBinary(_))
    ));
}

#[test]
fn probe_accepts_everything_and_view_copies_bytes() {
    let bytes = [1u8, 2, 3, 4, 5];
    assert!(UniversalArtifactBuild::is_deserializable(&bytes));
    assert!(UniversalArtifactBuild::is_deserializable(&[]));
    let view = UniversalArtifactBuildRef::try_from(&bytes).ok().unwrap();
    assert_eq!(view.bytes(), &bytes[..]);
    assert_eq!(view.serialize().ok(), Some(bytes.to_vec()));
}

#[test]
fn default_extension_is_wasmu() {
    assert_eq!(UniversalArtifactBuild::get_default_extension(&Triple::host()), "wasmu");
}

#[test]
fn trivial_module_exposes_one_export_and_no_data() {
    let build = UniversalArtifactBuild::from_serializable(module(1, vec![]));
    assert_eq!(build.create_module_info().exports.len(), 1);
    assert!(build.data_initializers().is_empty());
    assert_eq!(build.cpu_feature_bits(), 0b101);
    assert_eq!(build.features(), &Features::new());
}

#[test]
fn data_initializers_borrow_the_owned_bytes() {
    let loc0 = DataInitializerLocation { memory_index: 0, base: None, offset: 8 };
    let loc1 = DataInitializerLocation { memory_index: 1, base: Some(3), offset: 0 };
    let build = UniversalArtifactBuild::from_serializable(module(
        0,
        vec![
            OwnedDataInitializer { location: loc0, data: vec![1, 2, 3] },
            OwnedDataInitializer { location: loc1, data: vec![] },
        ],
    ));
    let inits = build.data_initializers();
    assert_eq!(inits.len(), 2);
    assert_eq!(inits[0].location, loc0);
    assert_eq!(inits[0].data, &[1, 2, 3]);
    assert_eq!(inits[1].location, loc1);
    assert!(inits[1].data.is_empty());
}

#[test]
fn owned_initializer_copies_the_borrowed_bytes() {
    let bytes = vec![5u8, 6, 7];
    let loc = DataInitializerLocation { memory_index: 2, base: None, offset: 16 };
    let borrowed = wasmer_artifact_core::artifact::DataInitializer { location: loc, data: &bytes };
    let owned = OwnedDataInitializer::new(&borrowed);
    assert_eq!(owned.location, loc);
    assert_eq!(owned.data, bytes);
}

#[test]
fn libcall_trampolines_go_after_the_compiler_sections() {
    let mut sections = no_sections();
    sections.custom_sections.push(section(1));
    sections.custom_section_relocations.push(vec![]);
    sections.custom_sections.push(section(2));
    sections.custom_section_relocations.push(vec![]);
    let mut c = SerializableCompilation {
        functions: no_functions(),
        sections,
        libcall_trampolines: 0,
        libcall_trampoline_len: 0,
    };
    let index = add_libcall_trampolines(&mut c, section(9), 64);
    assert_eq!(index, 2);
    assert_eq!(c.libcall_trampolines, 2);
    assert_eq!(c.libcall_trampoline_len, 64);
    assert_eq!(c.sections.custom_sections.len(), 3);
    assert_eq!(c.sections.custom_section_relocations.len(), 3);
    assert_eq!(c.sections.custom_sections[SectionIndex::new(2)], section(9));
}

#[test]
fn package_keeps_every_part() {
    let loc = DataInitializerLocation { memory_index: 0, base: None, offset: 4 };
    let m = SerializableModule::package(
        no_functions(),
        no_sections(),
        section(7),
        128,
        info(),
        vec![OwnedDataInitializer { location: loc, data: vec![1, 2] }],
        0b11,
    )
    .unwrap();
    assert_eq!(m.compilation.libcall_trampolines, 0);
    assert_eq!(m.compilation.libcall_trampoline_len, 128);
    assert_eq!(m.compilation.sections.custom_sections.len(), 1);
    assert_eq!(m.compilation.sections.custom_section_relocations.len(), 1);
    assert_eq!(m.cpu_features, 0b11);
    assert_eq!(m.data_initializers.len(), 1);
    assert_eq!(m.data_initializers[0].data, vec![1, 2]);
    assert_eq!(m.compile_info, info());
}

#[test]
fn magic_header_spells_wasmer_universal() {
    assert_eq!(&UniversalArtifactBuild::MAGIC_HEADER, b"wasmer-universal");
}

#[test]
fn package_refuses_nothing_for_few_sections_and_reads_back_module_info() {
    let m = SerializableModule::package(no_functions(), no_sections(), section(1), 8, info(), vec![], 0).unwrap();
    let build = UniversalArtifactBuild::from_serializable(m);
    assert_eq!(build.create_module_info(), ModuleInfo::new());
    assert_eq!(build.features(), &Features::new());
}

#[test]
fn libcall_relocations_follow_the_section() {
    let mut libcall = section(3);
    libcall.relocations = vec![Relocation {
        kind: RelocationKind::Abs8,
        reloc_target: RelocationTarget::CustomSection(SectionIndex::new(0)),
        offset: 4,
        addend: 0,
    }];
    let mut sections = no_sections();
    sections.custom_sections.push(section(1));
    sections.custom_section_relocations.push(vec![]);
    let m = SerializableModule::package(no_functions(), sections, libcall.clone(), 4, info(), vec![], 0)
        .unwrap();
    assert_eq!(m.compilation.libcall_trampolines, 1);
    assert_eq!(m.compilation.sections.custom_sections[SectionIndex::new(0)], section(1));
    assert_eq!(m.compilation.sections.custom_sections[SectionIndex::new(1)], libcall);
    assert_eq!(
        m.compilation.sections.custom_section_relocations[SectionIndex::new(1)],
        libcall.relocations
    );
    assert_eq!(m.compilation.sections.custom_section_relocations[SectionIndex::new(1)].len(), 1);
    assert!(m.compilation.functions.function_bodies.is_empty());
    assert!(m.compilation.functions.debug.is_none());
}
