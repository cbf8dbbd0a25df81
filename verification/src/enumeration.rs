//! The blocks that are emitted for one enumeration, in their order.

use vstd::prelude::*;
use vstd::string::StringExecFns;

use crate::emit::{
    arm_text, arms_text, derive_line, display_impl, display_text, enum_guard, error_domain_impl,
    error_domain_text, from_native_impl, from_native_text, member_guard, must_use_line,
    static_type_impl, static_type_text, to_native_impl, to_native_text, type_definition,
    type_definition_text, value_read_impl, value_read_text, value_write_impl,
    value_write_text, ArmKind,
};
use crate::flags::{emission_flags_spec, error_quark_source, get_error_quark_name};
use crate::model::{
    EmissionFlags, EnumOptions, EnumerationMetadata, EnumerationModel, GeneratorConfig,
    OptionsModel, VariantModel,
};
use crate::naming::member_name;
use crate::resolve::{
    canonical_indices, first_deprecated_version, first_version, resolve, resolve_spec,
};
use crate::sequence::{joined, lemma_joined_split, lemma_joined_step, models};
use crate::version::{cfg_deprecated_line, version_condition_line};

verus! {

/// What a block of emitted text is.
#[derive(Clone, Copy, Debug, PartialEq, Eq, Structural)]
pub enum BlockKind {
    TypeDefinition,
    Display,
    ToNative,
    FromNative,
    ErrorDomain,
    StaticType,
    ValueRead,
    ValueWrite,
}

impl BlockKind {
    /// Whether the block is one of the three that tie the type to the
    /// dynamic types of the native library.
    pub open spec fn is_dynamic_type(self) -> bool {
        self == BlockKind::StaticType || self == BlockKind::ValueRead || self
            == BlockKind::ValueWrite
    }
}

/// A block of emitted text.
#[derive(Debug)]
pub struct Block {
    pub kind: BlockKind,
    pub text: String,
}

pub struct BlockModel {
    pub kind: BlockKind,
    pub text: Seq<char>,
}

impl View for Block {
    type V = BlockModel;

    open spec fn view(&self) -> BlockModel {
        BlockModel { kind: self.kind, text: self.text@ }
    }
}

/// The blocks that the type gets apart from those of the dynamic type: the
/// definition, the display where it is asked for, the two conversions, and
/// the error domain where the type has one.
pub open spec fn base_kinds(flags: EmissionFlags) -> Seq<BlockKind> {
    seq![BlockKind::TypeDefinition] + (if flags.has_display {
        seq![BlockKind::Display]
    } else {
        Seq::<BlockKind>::empty()
    }) + seq![BlockKind::ToNative, BlockKind::FromNative] + (if flags.has_error_domain {
        seq![BlockKind::ErrorDomain]
    } else {
        Seq::<BlockKind>::empty()
    })
}

/// The three blocks of the dynamic type, which come together or not at all.
pub open spec fn dynamic_type_kinds(flags: EmissionFlags) -> Seq<BlockKind> {
    if flags.has_dynamic_type {
        seq![BlockKind::StaticType, BlockKind::ValueRead, BlockKind::ValueWrite]
    } else {
        Seq::<BlockKind>::empty()
    }
}

/// The blocks that the type gets, in the order in which they are emitted.
pub open spec fn block_kinds(flags: EmissionFlags) -> Seq<BlockKind> {
    base_kinds(flags) + dynamic_type_kinds(flags)
}

/// The text of an optional name, and no text where there is none.
pub open spec fn name_or_nothing(name: Option<Seq<char>>) -> Seq<char> {
    match name {
        Some(name) => name,
        None => Seq::<char>::empty(),
    }
}

/// The text of the block `kind`.
pub open spec fn block_text(
    kind: BlockKind,
    metadata: EnumerationModel,
    variants: Seq<VariantModel>,
    options: OptionsModel,
    general: GeneratorConfig,
) -> Seq<char> {
    match kind {
        BlockKind::TypeDefinition => type_definition_text(metadata, variants, options, general),
        BlockKind::Display => display_text(metadata, variants, general),
        BlockKind::ToNative => to_native_text(metadata, variants, general),
        BlockKind::FromNative => from_native_text(metadata, variants, general),
        BlockKind::ErrorDomain => error_domain_text(
            metadata,
            variants,
            general,
            name_or_nothing(error_quark_source(metadata)),
        ),
        BlockKind::StaticType => static_type_text(
            metadata,
            general,
            name_or_nothing(metadata.dynamic_type_getter),
        ),
        BlockKind::ValueRead => value_read_text(metadata, general),
        BlockKind::ValueWrite => value_write_text(metadata, general),
    }
}

/// The block `kind` of the enumeration.
pub open spec fn block_of(
    kind: BlockKind,
    metadata: EnumerationModel,
    options: OptionsModel,
    general: GeneratorConfig,
) -> BlockModel {
    BlockModel {
        kind,
        text: block_text(
            kind,
            metadata,
            resolve_spec(metadata.members, options.members),
            options,
            general,
        ),
    }
}

/// The blocks that are emitted for the enumeration, in their order.
pub open spec fn blocks_spec(
    metadata: EnumerationModel,
    options: OptionsModel,
    general: GeneratorConfig,
) -> Seq<BlockModel> {
    block_kinds(emission_flags_spec(metadata, options)).map_values(
        |each: BlockKind| block_of(each, metadata, options, general),
    )
}

/// The text that is emitted for the enumeration: its blocks, each with an
/// empty line behind it.
pub open spec fn enumeration_text(
    metadata: EnumerationModel,
    options: OptionsModel,
    general: GeneratorConfig,
) -> Seq<char> {
    joined(blocks_spec(metadata, options, general), |block: BlockModel| block.text + "\n"@)
}

fn push_block(
    blocks: &mut Vec<Block>,
    kind: BlockKind,
    text: String,
    Ghost(kinds): Ghost<Seq<BlockKind>>,
    Ghost(block): Ghost<spec_fn(BlockKind) -> BlockModel>,
) -> (listed: Ghost<Seq<BlockKind>>)
    requires
        models(old(blocks)@) == kinds.map_values(block),
        block(kind) == (BlockModel { kind, text: text@ }),
    ensures
        listed@ == kinds.push(kind),
        models(final(blocks)@) == listed@.map_values(block),
{
    let ghost before = models(blocks@);
    assert(before.len() == kinds.len());
    blocks.push(Block { kind, text });
    assert forall|j: int| 0 <= j < kinds.len() + 1 implies models(blocks@)[j] == kinds.push(
        kind,
    ).map_values(block)[j] by {
        if j < kinds.len() {
            assert(models(blocks@)[j] == before[j]);
        }
    }
    Ghost(kinds.push(kind))
}

/// The blocks that are emitted for the enumeration, in their order: the
/// definition of the type, the display where the project asks for it, the
/// conversions to and from the native integer, the error domain where the
/// type has one, and the three blocks of the dynamic type where the type
/// has a getter.
pub fn enum_blocks(
    metadata: &EnumerationMetadata,
    options: &EnumOptions,
    general: &GeneratorConfig,
) -> (blocks: Vec<Block>)
    ensures
        models(blocks@) == blocks_spec(metadata@, options@, *general),
{
    let ghost block = |kind: BlockKind| block_of(kind, metadata@, options@, *general);
    let variants = resolve(&metadata.members, &options.members);
    let mut blocks: Vec<Block> = Vec::new();
    let mut kinds: Ghost<Seq<BlockKind>> = Ghost(Seq::empty());
    assert(models(blocks@) =~= kinds@.map_values(block));

    let text = type_definition(metadata, &variants, options, general);
    kinds = push_block(&mut blocks, BlockKind::TypeDefinition, text, kinds, Ghost(block));
    if options.generate_display_trait {
        let text = display_impl(metadata, &variants, general);
        kinds = push_block(&mut blocks, BlockKind::Display, text, kinds, Ghost(block));
    }
    let text = to_native_impl(metadata, &variants, general);
    kinds = push_block(&mut blocks, BlockKind::ToNative, text, kinds, Ghost(block));
    let text = from_native_impl(metadata, &variants, general);
    kinds = push_block(&mut blocks, BlockKind::FromNative, text, kinds, Ghost(block));
    match get_error_quark_name(metadata) {
        Some(quark) => {
            let text = error_domain_impl(metadata, &variants, general, quark.as_str());
            kinds = push_block(&mut blocks, BlockKind::ErrorDomain, text, kinds, Ghost(block));
        },
        None => {},
    }
    match &metadata.dynamic_type_getter {
        Some(getter) => {
            let text = static_type_impl(metadata, general, getter.as_str());
            kinds = push_block(&mut blocks, BlockKind::StaticType, text, kinds, Ghost(block));
            let text = value_read_impl(metadata, general);
            kinds = push_block(&mut blocks, BlockKind::ValueRead, text, kinds, Ghost(block));
            let text = value_write_impl(metadata, general);
            kinds = push_block(&mut blocks, BlockKind::ValueWrite, text, kinds, Ghost(block));
        },
        None => {},
    }
    assert(kinds@ =~= block_kinds(emission_flags_spec(metadata@, options@)));
    blocks
}

/// Appends to `out` the text that is emitted for the enumeration.
pub fn generate_enum(
    general: &GeneratorConfig,
    out: &mut String,
    metadata: &EnumerationMetadata,
    options: &EnumOptions,
)
    ensures
        final(out)@ == old(out)@ + enumeration_text(metadata@, options@, *general),
{
    let blocks = enum_blocks(metadata, options, general);
    let ghost bs = models(blocks@);
    let ghost piece = |block: BlockModel| block.text + "\n"@;
    let mut i: usize = 0;
    while i < blocks.len()
        invariant
            i <= blocks.len(),
            bs == models(blocks@),
            piece == |block: BlockModel| block.text + "\n"@,
            out@ == old(out)@ + joined(bs.take(i as int), piece),
        decreases blocks.len() - i,
    {
        proof {
            lemma_joined_step(bs, piece, i as int);
        }
        out.append(blocks[i].text.as_str());
        out.append("\n");
        i = i + 1;
    }
    assert(bs.take(blocks.len() as int) =~= bs);
}

/// The enumeration as it is without a getter for its dynamic type.
pub open spec fn without_dynamic_type(metadata: EnumerationModel) -> EnumerationModel {
    EnumerationModel { dynamic_type_getter: None, ..metadata }
}

/// The blocks of the dynamic type of the enumeration: three where it has a
/// getter, and else none.
pub open spec fn dynamic_type_blocks(
    metadata: EnumerationModel,
    options: OptionsModel,
    general: GeneratorConfig,
) -> Seq<BlockModel> {
    dynamic_type_kinds(emission_flags_spec(metadata, options)).map_values(
        |each: BlockKind| block_of(each, metadata, options, general),
    )
}

/// Without the getter for its dynamic type an enumeration loses the three
/// blocks of the dynamic type, which stand at the end, and nothing else:
/// every other block is emitted as before, with the same text.
pub proof fn lemma_dynamic_type_independent(
    metadata: EnumerationModel,
    options: OptionsModel,
    general: GeneratorConfig,
)
    ensures
        blocks_spec(metadata, options, general) == blocks_spec(
            without_dynamic_type(metadata),
            options,
            general,
        ) + dynamic_type_blocks(metadata, options, general),
        dynamic_type_blocks(metadata, options, general).len() == (if metadata.dynamic_type_getter is Some {
            3nat
        } else {
            0nat
        }),
        forall|k: int|
            0 <= k < dynamic_type_blocks(metadata, options, general).len()
                ==> (#[trigger] dynamic_type_blocks(metadata, options, general)[k]).kind.is_dynamic_type(),
        forall|k: int|
            0 <= k < blocks_spec(without_dynamic_type(metadata), options, general).len() ==> !(
            #[trigger] blocks_spec(
                without_dynamic_type(metadata),
                options,
                general,
            )[k]).kind.is_dynamic_type(),
{
    let plain = without_dynamic_type(metadata);
    let flags = emission_flags_spec(metadata, options);
    let rest = blocks_spec(plain, options, general);
    // The blocks of the enumeration without its getter are its base blocks.
    assert(block_kinds(emission_flags_spec(plain, options)) =~= base_kinds(flags));
    assert forall|k: int| 0 <= k < rest.len() implies !(#[trigger] rest[k]).kind.is_dynamic_type()
        && rest[k] == block_of(base_kinds(flags)[k], metadata, options, general) by {
        assert(rest[k] == block_of(base_kinds(flags)[k], plain, options, general));
    }
}

/// What stands in the definition of the type before the arm of the
/// variant at `k`.
pub open spec fn definition_before(
    enum_name: Seq<char>,
    variants: Seq<VariantModel>,
    options: OptionsModel,
    general: GeneratorConfig,
    k: int,
) -> Seq<char> {
    must_use_line(options) + derive_line(options) + "#[derive(Clone, Copy)]\npub enum "@
        + enum_name + " {\n"@ + arms_text(
        ArmKind::Definition,
        enum_name,
        variants.take(k),
        general,
    )
}

/// What stands in the definition of the type behind the arm of the variant
/// at `k`.
pub open spec fn definition_after(
    enum_name: Seq<char>,
    variants: Seq<VariantModel>,
    general: GeneratorConfig,
    k: int,
) -> Seq<char> {
    arms_text(ArmKind::Definition, enum_name, variants.skip(k + 1), general)
        + "    #[doc(hidden)]\n    __Unknown(i32),\n}\n"@
}

/// In the definition of the type the arm of each variant stands with the
/// attributes of its own member in front: a deprecation that a rule gives a
/// member guards the arm of that member, whatever the deprecation of the
/// enumeration itself, which stands in front of the whole definition only.
pub proof fn lemma_member_guard_in_definition(
    metadata: EnumerationModel,
    variants: Seq<VariantModel>,
    options: OptionsModel,
    general: GeneratorConfig,
    k: int,
)
    requires
        0 <= k < variants.len(),
    ensures
        type_definition_text(metadata, variants, options, general) == enum_guard(
            metadata,
            general,
        ) + (definition_before(metadata.name, variants, options, general, k) + (member_guard(
            variants[k],
            general,
            1,
        ) + "\t"@ + variants[k].name + ",\n"@) + definition_after(
            metadata.name,
            variants,
            general,
            k,
        )),
{
    let piece = |variant: VariantModel|
        arm_text(ArmKind::Definition, metadata.name, variant, general);
    lemma_joined_split(variants, piece, k);
}

/// The deprecation and the version that the rules of a project give a
/// member stand in front of the arm of its variant in the definition of the
/// type, and nowhere does that arm depend on the attributes of the
/// enumeration.
pub proof fn lemma_rule_guards_member_arm(
    metadata: EnumerationModel,
    options: OptionsModel,
    general: GeneratorConfig,
    k: int,
)
    requires
        0 <= k < resolve_spec(metadata.members, options.members).len(),
    ensures
        ({
            let variants = resolve_spec(metadata.members, options.members);
            let member = metadata.members[canonical_indices(metadata.members, options.members)[k]];
            let arm = cfg_deprecated_line(
                first_deprecated_version(options.members, member.name),
                general.min_cfg_version,
                1,
            ) + version_condition_line(
                first_version(options.members, member.name),
                general.min_cfg_version,
                1,
            ) + "\t"@ + member_name(member.name) + ",\n"@;
            type_definition_text(metadata, variants, options, general) == enum_guard(
                metadata,
                general,
            ) + (definition_before(metadata.name, variants, options, general, k) + arm
                + definition_after(metadata.name, variants, general, k))
        }),
{
    let variants = resolve_spec(metadata.members, options.members);
    lemma_member_guard_in_definition(metadata, variants, options, general, k);
}

} // verus!
