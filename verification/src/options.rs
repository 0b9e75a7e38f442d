//! The configuration record and its resolution.
//!
//! The textual front-end hands in a list of raw options: each a key with a
//! value of one of the shapes the grammar can produce. Resolution checks
//! each key against the shape it requires (an unknown key or a wrong shape
//! is a configuration error) and folds the recognized options, last one
//! winning, into the [`Config`] record the generators consume.

use vstd::prelude::*;

use crate::ast::{str_matches, AttrDecl, Path, Visibility};
use crate::error::{Diagnostic, ErrorKind};
use crate::marker_traits::MarkerTrait;

verus! {

/// The customization a `vtable(...)` or `trait_object(...)` option carries:
/// attributes to attach, a visibility, and the type name.
#[derive(Clone, Debug)]
pub struct OutputAdditions {
    /// Attributes to attach to the generated type.
    pub attributes: Vec<AttrDecl>,
    /// The visibility of the generated type.
    pub visibility: Visibility,
    /// The name of the generated type.
    pub name: String,
    /// Where the name stands in the input.
    pub name_span: usize,
}

/// The value attached to one raw configuration key, in the shapes the
/// configuration grammar can produce.
#[derive(Clone, Debug)]
pub enum RawValue {
    /// A parenthesized customization group: attributes, visibility, name.
    Additions(OutputAdditions),
    /// A parenthesized path.
    PathGroup(Path),
    /// A parenthesized marker list, each entry optionally `unsafe`.
    Markers(Vec<MarkerTrait>),
    /// A parenthesized list of nested extension sub-options.
    Options(Vec<RawSubOption>),
    /// `= true` or `= false`.
    LitBool(bool),
    /// `= "..."`.
    LitStr(String),
    /// `=` followed by a bare word that is no literal of the expected kind.
    Word(String),
}

/// One raw configuration option: a key, its value, and its span.
#[derive(Clone, Debug)]
pub struct RawOption {
    /// The key.
    pub name: String,
    /// The attached value.
    pub value: RawValue,
    /// Where the option stands in the input.
    pub span: usize,
}

/// The value attached to one raw extension sub-option; the extension
/// grammar produces only these shapes.
#[derive(Clone, Debug)]
pub enum RawSubValue {
    /// A parenthesized path.
    PathGroup(Path),
    /// `= true` or `= false`.
    LitBool(bool),
    /// `= "..."`.
    LitStr(String),
    /// `=` followed by a bare word that is no literal of the expected kind.
    Word(String),
}

/// One raw extension sub-option: a key, its value, and its span.
#[derive(Clone, Debug)]
pub struct RawSubOption {
    /// The key.
    pub name: String,
    /// The attached value.
    pub value: RawSubValue,
    /// Where the sub-option stands in the input.
    pub span: usize,
}

/// One recognized option of the extension sub-configuration.
#[derive(Clone, Debug)]
pub enum InheritanceOption {
    /// `extends(path)`: the super-interface.
    Extends {
        /// The super-interface path.
        super_type: Path,
    },
    /// `possible_super_trait = bool`: whether this interface may serve as a
    /// super-interface for others.
    PossibleSuperTrait {
        /// The flag value.
        val: bool,
    },
}

/// The diagnostic an extension sub-option is rejected with, if any: an
/// unknown key, or a value of the wrong shape.
pub open spec fn inh_option_diag(raw: RawSubOption) -> Option<Diagnostic> {
    if raw.name@ == "extends"@ {
        if raw.value is PathGroup {
            None
        } else {
            Some(Diagnostic { kind: ErrorKind::MalformedValue, span: raw.span })
        }
    } else if raw.name@ == "possible_super_trait"@ {
        if raw.value is LitBool {
            None
        } else {
            Some(Diagnostic { kind: ErrorKind::MalformedValue, span: raw.span })
        }
    } else {
        Some(Diagnostic { kind: ErrorKind::UnknownOption, span: raw.span })
    }
}

/// Whether an extension sub-option parses to the given recognized option.
pub open spec fn inh_parses_to(raw: RawSubOption, out: InheritanceOption) -> bool {
    ||| (raw.name@ == "extends"@ && (raw.value matches RawSubValue::PathGroup(p) && out
        == (InheritanceOption::Extends { super_type: p })))
    ||| (raw.name@ == "possible_super_trait"@ && (raw.value matches RawSubValue::LitBool(b) && out
        == (InheritanceOption::PossibleSuperTrait { val: b })))
}

impl InheritanceOption {
    /// Parses one extension sub-option, or rejects it.
    pub fn parse(raw: RawSubOption) -> (r: Result<InheritanceOption, Diagnostic>)
        ensures
            match r {
                Ok(o) => inh_option_diag(raw) is None && inh_parses_to(raw, o),
                Err(d) => inh_option_diag(raw) == Some(d),
            },
    {
        let span = raw.span;
        if str_matches(&raw.name, "extends") {
            match raw.value {
                RawSubValue::PathGroup(p) => Ok(InheritanceOption::Extends { super_type: p }),
                _ => Err(Diagnostic { kind: ErrorKind::MalformedValue, span }),
            }
        } else if str_matches(&raw.name, "possible_super_trait") {
            match raw.value {
                RawSubValue::LitBool(b) => Ok(InheritanceOption::PossibleSuperTrait { val: b }),
                _ => Err(Diagnostic { kind: ErrorKind::MalformedValue, span }),
            }
        } else {
            Err(Diagnostic { kind: ErrorKind::UnknownOption, span })
        }
    }
}

/// The first diagnostic among the extension sub-options starting at `i`.
pub open spec fn find_inh_diag(raws: Seq<RawSubOption>, i: int) -> Option<Diagnostic>
    decreases raws.len() - i,
{
    if i < 0 || i >= raws.len() {
        None
    } else if inh_option_diag(raws[i]) is Some {
        inh_option_diag(raws[i])
    } else {
        find_inh_diag(raws, i + 1)
    }
}

/// Whether a raw extension sub-option list parses element-wise to the given
/// recognized list.
pub open spec fn inh_list_parses(raws: Seq<RawSubOption>, outs: Seq<InheritanceOption>) -> bool {
    &&& outs.len() == raws.len()
    &&& forall|i: int| 0 <= i < raws.len() ==> inh_parses_to(raws[i], #[trigger] outs[i])
}

/// One recognized configuration option.
#[derive(Clone, Debug)]
pub enum AttrOption {
    /// `vtable(...)`: customizes the table type.
    Vtable {
        /// Attributes, visibility and name for the table type.
        additions: OutputAdditions,
    },
    /// `inline_vtable = bool`: table stored inline in the allocation rather
    /// than behind a static reference.
    InlineVtable {
        /// The flag value.
        val: bool,
    },
    /// `trait_object(...)`: customizes the handle type.
    TraitObject {
        /// Attributes, visibility and name for the handle type.
        additions: OutputAdditions,
    },
    /// `drop_abi = "..."`: the destructor slot's calling convention.
    DropAbi {
        /// The calling-convention string.
        abi: String,
    },
    /// `marker_traits(...)`: replaces the default capability table.
    MarkerTraits {
        /// The override list.
        marker_traits: Vec<MarkerTrait>,
    },
    /// `store_layout = bool`: embed size and alignment metadata in the
    /// table.
    StoreLayout {
        /// The flag value.
        val: bool,
    },
    /// `inheritance(...)`: the extension sub-configuration.
    Inheritance {
        /// The recognized sub-options.
        options: Vec<InheritanceOption>,
    },
}

/// The diagnostic a raw configuration option is rejected with, if any: an
/// unknown key, a value of the wrong shape for its key, or the first
/// diagnostic of a nested extension sub-option.
pub open spec fn attr_option_diag(raw: RawOption) -> Option<Diagnostic> {
    if raw.name@ == "vtable"@ {
        if raw.value is Additions {
            None
        } else {
            Some(Diagnostic { kind: ErrorKind::MalformedValue, span: raw.span })
        }
    } else if raw.name@ == "inline_vtable"@ {
        if raw.value is LitBool {
            None
        } else {
            Some(Diagnostic { kind: ErrorKind::MalformedValue, span: raw.span })
        }
    } else if raw.name@ == "trait_object"@ {
        if raw.value is Additions {
            None
        } else {
            Some(Diagnostic { kind: ErrorKind::MalformedValue, span: raw.span })
        }
    } else if raw.name@ == "drop_abi"@ {
        if raw.value is LitStr {
            None
        } else {
            Some(Diagnostic { kind: ErrorKind::MalformedValue, span: raw.span })
        }
    } else if raw.name@ == "marker_traits"@ {
        if raw.value is Markers {
            None
        } else {
            Some(Diagnostic { kind: ErrorKind::MalformedValue, span: raw.span })
        }
    } else if raw.name@ == "store_layout"@ {
        if raw.value is LitBool {
            None
        } else {
            Some(Diagnostic { kind: ErrorKind::MalformedValue, span: raw.span })
        }
    } else if raw.name@ == "inheritance"@ {
        match raw.value {
            RawValue::Options(list) => find_inh_diag(list@, 0),
            _ => Some(Diagnostic { kind: ErrorKind::MalformedValue, span: raw.span }),
        }
    } else {
        Some(Diagnostic { kind: ErrorKind::UnknownOption, span: raw.span })
    }
}

/// Whether a raw configuration option parses to the given recognized option.
pub open spec fn attr_parses_to(raw: RawOption, out: AttrOption) -> bool {
    ||| (raw.name@ == "vtable"@ && (raw.value matches RawValue::Additions(a) && out
        == (AttrOption::Vtable { additions: a })))
    ||| (raw.name@ == "inline_vtable"@ && (raw.value matches RawValue::LitBool(b) && out
        == (AttrOption::InlineVtable { val: b })))
    ||| (raw.name@ == "trait_object"@ && (raw.value matches RawValue::Additions(a) && out
        == (AttrOption::TraitObject { additions: a })))
    ||| (raw.name@ == "drop_abi"@ && (raw.value matches RawValue::LitStr(s) && out
        == (AttrOption::DropAbi { abi: s })))
    ||| (raw.name@ == "marker_traits"@ && (raw.value matches RawValue::Markers(m) && out
        == (AttrOption::MarkerTraits { marker_traits: m })))
    ||| (raw.name@ == "store_layout"@ && (raw.value matches RawValue::LitBool(b) && out
        == (AttrOption::StoreLayout { val: b })))
    ||| (raw.name@ == "inheritance"@ && (raw.value matches RawValue::Options(list) && (out
        matches AttrOption::Inheritance { options } && inh_list_parses(list@, options@))))
}

impl AttrOption {
    /// Parses one raw configuration option, or rejects it.
    #[verifier::loop_isolation(false)]
    pub fn parse(raw: RawOption) -> (r: Result<AttrOption, Diagnostic>)
        ensures
            match r {
                Ok(o) => attr_option_diag(raw) is None && attr_parses_to(raw, o),
                Err(d) => attr_option_diag(raw) == Some(d),
            },
    {
        let span = raw.span;
        if str_matches(&raw.name, "vtable") {
            match raw.value {
                RawValue::Additions(a) => Ok(AttrOption::Vtable { additions: a }),
                _ => Err(Diagnostic { kind: ErrorKind::MalformedValue, span }),
            }
        } else if str_matches(&raw.name, "inline_vtable") {
            match raw.value {
                RawValue::LitBool(b) => Ok(AttrOption::InlineVtable { val: b }),
                _ => Err(Diagnostic { kind: ErrorKind::MalformedValue, span }),
            }
        } else if str_matches(&raw.name, "trait_object") {
            match raw.value {
                RawValue::Additions(a) => Ok(AttrOption::TraitObject { additions: a }),
                _ => Err(Diagnostic { kind: ErrorKind::MalformedValue, span }),
            }
        } else if str_matches(&raw.name, "drop_abi") {
            match raw.value {
                RawValue::LitStr(s) => Ok(AttrOption::DropAbi { abi: s }),
                _ => Err(Diagnostic { kind: ErrorKind::MalformedValue, span }),
            }
        } else if str_matches(&raw.name, "marker_traits") {
            match raw.value {
                RawValue::Markers(m) => Ok(AttrOption::MarkerTraits { marker_traits: m }),
                _ => Err(Diagnostic { kind: ErrorKind::MalformedValue, span }),
            }
        } else if str_matches(&raw.name, "store_layout") {
            match raw.value {
                RawValue::LitBool(b) => Ok(AttrOption::StoreLayout { val: b }),
                _ => Err(Diagnostic { kind: ErrorKind::MalformedValue, span }),
            }
        } else if str_matches(&raw.name, "inheritance") {
            match raw.value {
                RawValue::Options(list) => {
                    let ghost raws = list@;
                    let mut rest = list;
                    let mut outs: Vec<InheritanceOption> = Vec::new();
                    let ghost k: int = 0;
                    while rest.len() > 0
                        invariant
                            0 <= k <= raws.len(),
                            rest@ =~= raws.subrange(k, raws.len() as int),
                            outs@.len() == k,
                            find_inh_diag(raws, 0) == find_inh_diag(raws, k),
                            forall|i: int|
                                0 <= i < k ==> inh_parses_to(raws[i], #[trigger] outs@[i]),
                        decreases rest@.len(),
                    {
                        let item = rest.remove(0);
                        proof {
                            assert(item == raws[k]);
                        }
                        match InheritanceOption::parse(item) {
                            Ok(o) => {
                                outs.push(o);
                            },
                            Err(d) => {
                                return Err(d);
                            },
                        }
                        proof {
                            k = k + 1;
                            assert(rest@ =~= raws.subrange(k, raws.len() as int));
                        }
                    }
                    Ok(AttrOption::Inheritance { options: outs })
                },
                _ => Err(Diagnostic { kind: ErrorKind::MalformedValue, span }),
            }
        } else {
            Err(Diagnostic { kind: ErrorKind::UnknownOption, span })
        }
    }
}

/// The first diagnostic among the raw configuration options starting at `i`.
pub open spec fn find_attr_diag(raws: Seq<RawOption>, i: int) -> Option<Diagnostic>
    decreases raws.len() - i,
{
    if i < 0 || i >= raws.len() {
        None
    } else if attr_option_diag(raws[i]) is Some {
        attr_option_diag(raws[i])
    } else {
        find_attr_diag(raws, i + 1)
    }
}

/// Whether a raw option list parses element-wise to the given recognized
/// list.
pub open spec fn attr_list_parses(raws: Seq<RawOption>, outs: Seq<AttrOption>) -> bool {
    &&& outs.len() == raws.len()
    &&& forall|i: int| 0 <= i < raws.len() ==> attr_parses_to(raws[i], #[trigger] outs[i])
}

/// Parses the whole raw option list, or fails with the first diagnostic.
#[verifier::loop_isolation(false)]
pub fn parse_attr_options(raws: Vec<RawOption>) -> (r: Result<Vec<AttrOption>, Diagnostic>)
    ensures
        match r {
            Ok(outs) => find_attr_diag(raws@, 0) is None && attr_list_parses(raws@, outs@),
            Err(d) => find_attr_diag(raws@, 0) == Some(d),
        },
{
    let ghost orig = raws@;
    let mut rest = raws;
    let mut outs: Vec<AttrOption> = Vec::new();
    let ghost k: int = 0;
    while rest.len() > 0
        invariant
            0 <= k <= orig.len(),
            rest@ =~= orig.subrange(k, orig.len() as int),
            outs@.len() == k,
            find_attr_diag(orig, 0) == find_attr_diag(orig, k),
            forall|i: int| 0 <= i < k ==> attr_parses_to(orig[i], #[trigger] outs@[i]),
        decreases rest@.len(),
    {
        let item = rest.remove(0);
        proof {
            assert(item == orig[k]);
        }
        match AttrOption::parse(item) {
            Ok(o) => {
                outs.push(o);
            },
            Err(d) => {
                return Err(d);
            },
        }
        proof {
            k = k + 1;
            assert(rest@ =~= orig.subrange(k, orig.len() as int));
        }
    }
    Ok(outs)
}

/// The resolved extension sub-configuration.
#[derive(Clone, Debug)]
pub struct InheritanceConfig {
    /// The super-interface this one extends, when configured.
    pub extends: Option<Path>,
    /// Whether this interface may serve as a super-interface for others.
    pub possible_super_trait: bool,
}

/// The last `extends` payload among the sub-options, if any.
pub open spec fn last_extends(opts: Seq<InheritanceOption>) -> Option<Path>
    decreases opts.len(),
{
    if opts.len() == 0 {
        None
    } else {
        match opts.last() {
            InheritanceOption::Extends { super_type } => Some(super_type),
            _ => last_extends(opts.drop_last()),
        }
    }
}

/// The last `possible_super_trait` flag among the sub-options, if any.
pub open spec fn last_possible_super_trait(opts: Seq<InheritanceOption>) -> Option<bool>
    decreases opts.len(),
{
    if opts.len() == 0 {
        None
    } else {
        match opts.last() {
            InheritanceOption::PossibleSuperTrait { val } => Some(val),
            _ => last_possible_super_trait(opts.drop_last()),
        }
    }
}

/// Whether a resolved extension sub-configuration is the last-wins fold of
/// the given sub-options.
pub open spec fn inh_config_of(opts: Seq<InheritanceOption>, c: InheritanceConfig) -> bool {
    &&& c.extends == last_extends(opts)
    &&& c.possible_super_trait == (last_possible_super_trait(opts) == Some(true))
}

impl InheritanceConfig {
    /// Resolves the extension sub-options, the last occurrence of each key
    /// winning; both sub-options default to absent.
    #[verifier::loop_isolation(false)]
    pub fn from_options(opts: Vec<InheritanceOption>) -> (r: InheritanceConfig)
        ensures
            inh_config_of(opts@, r),
    {
        let ghost orig = opts@;
        let mut rest = opts;
        let mut extends: Option<Path> = None;
        let mut pst: Option<bool> = None;
        let ghost k: int = 0;
        while rest.len() > 0
            invariant
                0 <= k <= orig.len(),
                rest@ =~= orig.subrange(k, orig.len() as int),
                extends == last_extends(orig.subrange(0, k)),
                pst == last_possible_super_trait(orig.subrange(0, k)),
            decreases rest@.len(),
        {
            let item = rest.remove(0);
            proof {
                assert(item == orig[k]);
                assert(orig.subrange(0, k + 1).drop_last() =~= orig.subrange(0, k));
                assert(orig.subrange(0, k + 1).last() == orig[k]);
            }
            match item {
                InheritanceOption::Extends { super_type } => {
                    extends = Some(super_type);
                },
                InheritanceOption::PossibleSuperTrait { val } => {
                    pst = Some(val);
                },
            }
            proof {
                k = k + 1;
                assert(rest@ =~= orig.subrange(k, orig.len() as int));
            }
        }
        proof {
            assert(orig.subrange(0, orig.len() as int) =~= orig);
        }
        InheritanceConfig {
            extends,
            possible_super_trait: match pst {
                Some(b) => b,
                None => false,
            },
        }
    }
}

impl Default for InheritanceConfig {
    /// The default extension sub-configuration: no super-interface, not a
    /// possible super-interface.
    fn default() -> (r: InheritanceConfig)
        ensures
            r.extends is None,
            !r.possible_super_trait,
    {
        InheritanceConfig { extends: None, possible_super_trait: false }
    }
}

/// The resolved configuration record the generator stages consume.
#[derive(Clone, Debug)]
pub struct Config {
    /// Attributes for the table type.
    pub vtable_attributes: Vec<AttrDecl>,
    /// Custom visibility for the table type, when configured.
    pub vtable_visibility: Option<Visibility>,
    /// Custom name for the table type, when configured.
    pub vtable_name: Option<String>,
    /// Where the custom table name stands in the input; meaningful only
    /// when a custom name is configured.
    pub vtable_name_span: usize,
    /// Whether the table is stored inline in the allocation.
    pub inline_vtable: bool,
    /// Attributes for the handle type.
    pub trait_object_attributes: Vec<AttrDecl>,
    /// Custom visibility for the handle type, when configured.
    pub trait_object_visibility: Option<Visibility>,
    /// Custom name for the handle type, when configured.
    pub trait_object_name: Option<String>,
    /// The destructor slot's calling convention, when configured.
    pub drop_abi: Option<String>,
    /// The capability-marker override list, when configured.
    pub marker_traits: Option<Vec<MarkerTrait>>,
    /// Whether the table embeds size and alignment metadata.
    pub store_layout: bool,
    /// The extension sub-configuration, when configured.
    pub inheritance: Option<InheritanceConfig>,
}

impl Default for Config {
    /// The default configuration: derived names and visibilities, table
    /// behind a static reference, no destructor calling convention, the
    /// default capability table, no layout metadata, no extension.
    fn default() -> (r: Config)
        ensures
            r.vtable_attributes@ == Seq::<AttrDecl>::empty(),
            r.vtable_visibility is None,
            r.vtable_name is None,
            !r.inline_vtable,
            r.trait_object_attributes@ == Seq::<AttrDecl>::empty(),
            r.trait_object_visibility is None,
            r.trait_object_name is None,
            r.drop_abi is None,
            r.marker_traits is None,
            !r.store_layout,
            r.inheritance is None,
    {
        Config {
            vtable_attributes: Vec::new(),
            vtable_visibility: None,
            vtable_name: None,
            vtable_name_span: 0,
            inline_vtable: false,
            trait_object_attributes: Vec::new(),
            trait_object_visibility: None,
            trait_object_name: None,
            drop_abi: None,
            marker_traits: None,
            store_layout: false,
            inheritance: None,
        }
    }
}

/// The last `vtable(...)` payload among the options, if any.
pub open spec fn last_vtable_additions(opts: Seq<AttrOption>) -> Option<OutputAdditions>
    decreases opts.len(),
{
    if opts.len() == 0 {
        None
    } else {
        match opts.last() {
            AttrOption::Vtable { additions } => Some(additions),
            _ => last_vtable_additions(opts.drop_last()),
        }
    }
}

/// The last `trait_object(...)` payload among the options, if any.
pub open spec fn last_trait_object_additions(opts: Seq<AttrOption>) -> Option<OutputAdditions>
    decreases opts.len(),
{
    if opts.len() == 0 {
        None
    } else {
        match opts.last() {
            AttrOption::TraitObject { additions } => Some(additions),
            _ => last_trait_object_additions(opts.drop_last()),
        }
    }
}

/// The last `inline_vtable` flag among the options, if any.
pub open spec fn last_inline_vtable(opts: Seq<AttrOption>) -> Option<bool>
    decreases opts.len(),
{
    if opts.len() == 0 {
        None
    } else {
        match opts.last() {
            AttrOption::InlineVtable { val } => Some(val),
            _ => last_inline_vtable(opts.drop_last()),
        }
    }
}

/// The last `store_layout` flag among the options, if any.
pub open spec fn last_store_layout(opts: Seq<AttrOption>) -> Option<bool>
    decreases opts.len(),
{
    if opts.len() == 0 {
        None
    } else {
        match opts.last() {
            AttrOption::StoreLayout { val } => Some(val),
            _ => last_store_layout(opts.drop_last()),
        }
    }
}

/// The last `drop_abi` string among the options, if any.
pub open spec fn last_drop_abi(opts: Seq<AttrOption>) -> Option<String>
    decreases opts.len(),
{
    if opts.len() == 0 {
        None
    } else {
        match opts.last() {
            AttrOption::DropAbi { abi } => Some(abi),
            _ => last_drop_abi(opts.drop_last()),
        }
    }
}

/// The last `marker_traits(...)` override list among the options, if any.
pub open spec fn last_marker_traits(opts: Seq<AttrOption>) -> Option<Vec<MarkerTrait>>
    decreases opts.len(),
{
    if opts.len() == 0 {
        None
    } else {
        match opts.last() {
            AttrOption::MarkerTraits { marker_traits } => Some(marker_traits),
            _ => last_marker_traits(opts.drop_last()),
        }
    }
}

/// The last `inheritance(...)` sub-option list among the options, if any.
pub open spec fn last_inheritance(opts: Seq<AttrOption>) -> Option<Vec<InheritanceOption>>
    decreases opts.len(),
{
    if opts.len() == 0 {
        None
    } else {
        match opts.last() {
            AttrOption::Inheritance { options } => Some(options),
            _ => last_inheritance(opts.drop_last()),
        }
    }
}

/// Whether a resolved configuration is the last-wins fold of the given
/// recognized options over the defaults.
pub open spec fn config_of(opts: Seq<AttrOption>, c: Config) -> bool {
    &&& match last_vtable_additions(opts) {
        Some(a) => {
            &&& c.vtable_attributes == a.attributes
            &&& c.vtable_visibility == Some(a.visibility)
            &&& c.vtable_name == Some(a.name)
            &&& c.vtable_name_span == a.name_span
        },
        None => {
            &&& c.vtable_attributes@ == Seq::<AttrDecl>::empty()
            &&& c.vtable_visibility is None
            &&& c.vtable_name is None
        },
    }
    &&& match last_trait_object_additions(opts) {
        Some(a) => {
            &&& c.trait_object_attributes == a.attributes
            &&& c.trait_object_visibility == Some(a.visibility)
            &&& c.trait_object_name == Some(a.name)
        },
        None => {
            &&& c.trait_object_attributes@ == Seq::<AttrDecl>::empty()
            &&& c.trait_object_visibility is None
            &&& c.trait_object_name is None
        },
    }
    &&& c.inline_vtable == (last_inline_vtable(opts) == Some(true))
    &&& c.store_layout == (last_store_layout(opts) == Some(true))
    &&& c.drop_abi == last_drop_abi(opts)
    &&& c.marker_traits == last_marker_traits(opts)
    &&& match last_inheritance(opts) {
        Some(io) => c.inheritance matches Some(ic) && inh_config_of(io@, ic),
        None => c.inheritance is None,
    }
}

impl Config {
    /// Resolves the recognized options into the configuration record, the
    /// last occurrence of each key winning.
    #[verifier::loop_isolation(false)]
    pub fn from_options(options: Vec<AttrOption>) -> (r: Config)
        ensures
            config_of(options@, r),
    {
        let ghost orig = options@;
        let mut rest = options;
        let mut vtable_add: Option<OutputAdditions> = None;
        let mut trait_object_add: Option<OutputAdditions> = None;
        let mut inline_vtable: Option<bool> = None;
        let mut store_layout: Option<bool> = None;
        let mut drop_abi: Option<String> = None;
        let mut marker_traits: Option<Vec<MarkerTrait>> = None;
        let mut inheritance: Option<Vec<InheritanceOption>> = None;
        let ghost k: int = 0;
        while rest.len() > 0
            invariant
                0 <= k <= orig.len(),
                rest@ =~= orig.subrange(k, orig.len() as int),
                vtable_add == last_vtable_additions(orig.subrange(0, k)),
                trait_object_add == last_trait_object_additions(orig.subrange(0, k)),
                inline_vtable == last_inline_vtable(orig.subrange(0, k)),
                store_layout == last_store_layout(orig.subrange(0, k)),
                drop_abi == last_drop_abi(orig.subrange(0, k)),
                marker_traits == last_marker_traits(orig.subrange(0, k)),
                inheritance == last_inheritance(orig.subrange(0, k)),
            decreases rest@.len(),
        {
            let item = rest.remove(0);
            proof {
                assert(item == orig[k]);
                assert(orig.subrange(0, k + 1).drop_last() =~= orig.subrange(0, k));
                assert(orig.subrange(0, k + 1).last() == orig[k]);
            }
            match item {
                AttrOption::Vtable { additions } => {
                    vtable_add = Some(additions);
                },
                AttrOption::InlineVtable { val } => {
                    inline_vtable = Some(val);
                },
                AttrOption::TraitObject { additions } => {
                    trait_object_add = Some(additions);
                },
                AttrOption::DropAbi { abi } => {
                    drop_abi = Some(abi);
                },
                AttrOption::MarkerTraits { marker_traits: m } => {
                    marker_traits = Some(m);
                },
                AttrOption::StoreLayout { val } => {
                    store_layout = Some(val);
                },
                AttrOption::Inheritance { options: io } => {
                    inheritance = Some(io);
                },
            }
            proof {
                k = k + 1;
                assert(rest@ =~= orig.subrange(k, orig.len() as int));
            }
        }
        proof {
            assert(orig.subrange(0, orig.len() as int) =~= orig);
        }
        let (vtable_attributes, vtable_visibility, vtable_name, vtable_name_span) =
            match vtable_add {
            Some(a) => (a.attributes, Some(a.visibility), Some(a.name), a.name_span),
            None => (Vec::new(), None, None, 0),
        };
        let (trait_object_attributes, trait_object_visibility, trait_object_name) =
            match trait_object_add {
            Some(a) => (a.attributes, Some(a.visibility), Some(a.name)),
            None => (Vec::new(), None, None),
        };
        Config {
            vtable_attributes,
            vtable_visibility,
            vtable_name,
            vtable_name_span,
            inline_vtable: match inline_vtable {
                Some(b) => b,
                None => false,
            },
            trait_object_attributes,
            trait_object_visibility,
            trait_object_name,
            drop_abi,
            marker_traits,
            store_layout: match store_layout {
                Some(b) => b,
                None => false,
            },
            inheritance: match inheritance {
                Some(io) => Some(InheritanceConfig::from_options(io)),
                None => None,
            },
        }
    }
}

} // verus!
// The projections below read the raw option list directly, so that the
// pipeline's contract can speak of the raw input from end to end; the
// lemmas connect them to parsing followed by last-wins resolution.

verus! {

/// The last customization group attached to the given key, read off the raw
/// options; `None` when the key never occurs (or its last occurrence has the
/// wrong shape, which parsing rejects).
pub open spec fn raw_last_additions(options: Seq<RawOption>, key: Seq<char>) -> Option<
    OutputAdditions,
>
    decreases options.len(),
{
    if options.len() == 0 {
        None
    } else if options.last().name@ == key {
        match options.last().value {
            RawValue::Additions(a) => Some(a),
            _ => None,
        }
    } else {
        raw_last_additions(options.drop_last(), key)
    }
}

/// The last boolean attached to the given key, read off the raw options.
pub open spec fn raw_last_bool(options: Seq<RawOption>, key: Seq<char>) -> Option<bool>
    decreases options.len(),
{
    if options.len() == 0 {
        None
    } else if options.last().name@ == key {
        match options.last().value {
            RawValue::LitBool(b) => Some(b),
            _ => None,
        }
    } else {
        raw_last_bool(options.drop_last(), key)
    }
}

/// The last string attached to the given key, read off the raw options.
pub open spec fn raw_last_str(options: Seq<RawOption>, key: Seq<char>) -> Option<String>
    decreases options.len(),
{
    if options.len() == 0 {
        None
    } else if options.last().name@ == key {
        match options.last().value {
            RawValue::LitStr(s) => Some(s),
            _ => None,
        }
    } else {
        raw_last_str(options.drop_last(), key)
    }
}

/// The last marker override list, read off the raw options.
pub open spec fn raw_last_markers(options: Seq<RawOption>) -> Option<Vec<MarkerTrait>>
    decreases options.len(),
{
    if options.len() == 0 {
        None
    } else if options.last().name@ == "marker_traits"@ {
        match options.last().value {
            RawValue::Markers(m) => Some(m),
            _ => None,
        }
    } else {
        raw_last_markers(options.drop_last())
    }
}

/// The last extension sub-option list, read off the raw options.
pub open spec fn raw_last_inheritance(options: Seq<RawOption>) -> Option<Vec<RawSubOption>>
    decreases options.len(),
{
    if options.len() == 0 {
        None
    } else if options.last().name@ == "inheritance"@ {
        match options.last().value {
            RawValue::Options(l) => Some(l),
            _ => None,
        }
    } else {
        raw_last_inheritance(options.drop_last())
    }
}

/// The last path attached to the given key, read off raw extension
/// sub-options.
pub open spec fn raw_sub_last_path(subs: Seq<RawSubOption>, key: Seq<char>) -> Option<Path>
    decreases subs.len(),
{
    if subs.len() == 0 {
        None
    } else if subs.last().name@ == key {
        match subs.last().value {
            RawSubValue::PathGroup(p) => Some(p),
            _ => None,
        }
    } else {
        raw_sub_last_path(subs.drop_last(), key)
    }
}

/// The last boolean attached to the given key, read off raw extension
/// sub-options.
pub open spec fn raw_sub_last_bool(subs: Seq<RawSubOption>, key: Seq<char>) -> Option<bool>
    decreases subs.len(),
{
    if subs.len() == 0 {
        None
    } else if subs.last().name@ == key {
        match subs.last().value {
            RawSubValue::LitBool(b) => Some(b),
            _ => None,
        }
    } else {
        raw_sub_last_bool(subs.drop_last(), key)
    }
}

/// The super-interface the raw options configure, if any.
pub open spec fn raw_extends(options: Seq<RawOption>) -> Option<Path> {
    match raw_last_inheritance(options) {
        Some(l) => raw_sub_last_path(l@, "extends"@),
        None => None,
    }
}

/// Whether the raw options declare the interface a possible
/// super-interface.
pub open spec fn raw_possible_super_trait(options: Seq<RawOption>) -> bool {
    match raw_last_inheritance(options) {
        Some(l) => raw_sub_last_bool(l@, "possible_super_trait"@) == Some(true),
        None => false,
    }
}

/// Whether the raw options hold any extension sub-configuration.
pub open spec fn raw_has_inheritance(options: Seq<RawOption>) -> bool {
    raw_last_inheritance(options) is Some
}

/// A diag-free prefix scan means every single option is diag-free.
pub proof fn lemma_find_attr_none(raws: Seq<RawOption>, i: int)
    requires
        0 <= i,
        find_attr_diag(raws, i) is None,
    ensures
        forall|j: int| i <= j < raws.len() ==> attr_option_diag(#[trigger] raws[j]) is None,
    decreases raws.len() - i,
{
    if i < raws.len() {
        lemma_find_attr_none(raws, i + 1);
    }
}

/// A diag-free prefix scan of extension sub-options means every one is
/// diag-free.
pub proof fn lemma_find_inh_none(subs: Seq<RawSubOption>, i: int)
    requires
        0 <= i,
        find_inh_diag(subs, i) is None,
    ensures
        forall|j: int| i <= j < subs.len() ==> inh_option_diag(#[trigger] subs[j]) is None,
    decreases subs.len() - i,
{
    if i < subs.len() {
        lemma_find_inh_none(subs, i + 1);
    }
}

/// Parsing a diag-free raw option list and folding the result last-wins
/// reads the same values off the raw list directly.
pub proof fn lemma_parsed_projections(raws: Seq<RawOption>, outs: Seq<AttrOption>)
    requires
        attr_list_parses(raws, outs),
        forall|i: int| 0 <= i < raws.len() ==> attr_option_diag(#[trigger] raws[i]) is None,
    ensures
        last_vtable_additions(outs) == raw_last_additions(raws, "vtable"@),
        last_trait_object_additions(outs) == raw_last_additions(raws, "trait_object"@),
        last_inline_vtable(outs) == raw_last_bool(raws, "inline_vtable"@),
        last_store_layout(outs) == raw_last_bool(raws, "store_layout"@),
        last_drop_abi(outs) == raw_last_str(raws, "drop_abi"@),
        last_marker_traits(outs) == raw_last_markers(raws),
        match (last_inheritance(outs), raw_last_inheritance(raws)) {
            (Some(io), Some(subs)) => inh_list_parses(subs@, io@) && find_inh_diag(subs@, 0) is None,
            (None, None) => true,
            _ => false,
        },
    decreases raws.len(),
{
    reveal_strlit("vtable");
    reveal_strlit("inline_vtable");
    reveal_strlit("trait_object");
    reveal_strlit("drop_abi");
    reveal_strlit("marker_traits");
    reveal_strlit("store_layout");
    reveal_strlit("inheritance");
    assert("vtable"@.len() == 6);
    assert("inline_vtable"@.len() == 13);
    assert("trait_object"@.len() == 12);
    assert("drop_abi"@.len() == 8);
    assert("marker_traits"@.len() == 13);
    assert("store_layout"@.len() == 12);
    assert("inheritance"@.len() == 11);
    assert("inline_vtable"@[0] == 'i');
    assert("marker_traits"@[0] == 'm');
    assert("inline_vtable"@ != "marker_traits"@);
    assert("trait_object"@[0] == 't');
    assert("store_layout"@[0] == 's');
    assert("trait_object"@ != "store_layout"@);
    if raws.len() > 0 {
        let r = raws.last();
        let o = outs.last();
        assert(attr_parses_to(raws[raws.len() - 1], outs[raws.len() - 1]));
        assert(attr_option_diag(raws[raws.len() - 1]) is None);
        assert forall|i: int| 0 <= i < raws.drop_last().len() implies attr_parses_to(
            raws.drop_last()[i],
            #[trigger] outs.drop_last()[i],
        ) by {
            assert(raws.drop_last()[i] == raws[i]);
            assert(outs.drop_last()[i] == outs[i]);
            assert(attr_parses_to(raws[i], outs[i]));
        }
        assert forall|i: int| 0 <= i < raws.drop_last().len() implies attr_option_diag(
            #[trigger] raws.drop_last()[i],
        ) is None by {
            assert(raws.drop_last()[i] == raws[i]);
        }
        lemma_parsed_projections(raws.drop_last(), outs.drop_last());
        assert(r == raws[raws.len() - 1]);
        assert(o == outs[raws.len() - 1]);
        assert(attr_parses_to(r, o));
        assert(attr_option_diag(r) is None);
        if r.name@ == "vtable"@ {
            assert(r.value is Additions);
            assert(o matches AttrOption::Vtable { .. });
        } else if r.name@ == "inline_vtable"@ {
            assert(r.value is LitBool);
            assert(o matches AttrOption::InlineVtable { .. });
        } else if r.name@ == "trait_object"@ {
            assert(r.value is Additions);
            assert(o matches AttrOption::TraitObject { .. });
        } else if r.name@ == "drop_abi"@ {
            assert(r.value is LitStr);
            assert(o matches AttrOption::DropAbi { .. });
        } else if r.name@ == "marker_traits"@ {
            assert(r.value is Markers);
            assert(o matches AttrOption::MarkerTraits { .. });
        } else if r.name@ == "store_layout"@ {
            assert(r.value is LitBool);
            assert(o matches AttrOption::StoreLayout { .. });
        } else if r.name@ == "inheritance"@ {
            assert(r.value is Options);
            assert(o matches AttrOption::Inheritance { .. });
        } else {
            assert(attr_option_diag(r) is Some);
            assert(false);
        }
    }
}

/// Parsing a diag-free raw extension sub-option list and folding the result
/// last-wins reads the same values off the raw list directly.
pub proof fn lemma_parsed_inh_projections(subs: Seq<RawSubOption>, outs: Seq<InheritanceOption>)
    requires
        inh_list_parses(subs, outs),
        forall|i: int| 0 <= i < subs.len() ==> inh_option_diag(#[trigger] subs[i]) is None,
    ensures
        last_extends(outs) == raw_sub_last_path(subs, "extends"@),
        last_possible_super_trait(outs) == raw_sub_last_bool(subs, "possible_super_trait"@),
    decreases subs.len(),
{
    reveal_strlit("extends");
    reveal_strlit("possible_super_trait");
    assert("extends"@.len() == 7);
    assert("possible_super_trait"@.len() == 20);
    if subs.len() > 0 {
        let r = subs.last();
        let o = outs.last();
        assert(inh_parses_to(subs[subs.len() - 1], outs[subs.len() - 1]));
        assert(inh_option_diag(subs[subs.len() - 1]) is None);
        assert forall|i: int| 0 <= i < subs.drop_last().len() implies inh_parses_to(
            subs.drop_last()[i],
            #[trigger] outs.drop_last()[i],
        ) by {
            assert(subs.drop_last()[i] == subs[i]);
            assert(outs.drop_last()[i] == outs[i]);
            assert(inh_parses_to(subs[i], outs[i]));
        }
        assert forall|i: int| 0 <= i < subs.drop_last().len() implies inh_option_diag(
            #[trigger] subs.drop_last()[i],
        ) is None by {
            assert(subs.drop_last()[i] == subs[i]);
        }
        lemma_parsed_inh_projections(subs.drop_last(), outs.drop_last());
        assert(r == subs[subs.len() - 1]);
        assert(o == outs[subs.len() - 1]);
        assert(inh_parses_to(r, o));
        if r.name@ == "extends"@ {
            assert(r.value is PathGroup);
            assert(o matches InheritanceOption::Extends { .. });
        } else if r.name@ == "possible_super_trait"@ {
            assert(r.value is LitBool);
            assert(o matches InheritanceOption::PossibleSuperTrait { .. });
        } else {
            assert(inh_option_diag(r) is Some);
            assert(false);
        }
    }
}

} // verus!

verus! {

/// Structural well-formedness of the raw input: every path the grammar
/// hands in has at least one segment.
pub open spec fn raw_paths_wf(options: Seq<RawOption>) -> bool {
    forall|i: int|
        0 <= i < options.len() ==> match (#[trigger] options[i]).value {
            RawValue::Options(l) => forall|j: int|
                0 <= j < l@.len() ==> ((#[trigger] l@[j].value) matches RawSubValue::PathGroup(p)
                    ==> p.segments@.len() > 0),
            _ => true,
        }
}

proof fn lemma_raw_sub_path_wf(subs: Seq<RawSubOption>, key: Seq<char>)
    requires
        forall|j: int|
            0 <= j < subs.len() ==> ((#[trigger] subs[j].value) matches RawSubValue::PathGroup(p)
                ==> p.segments@.len() > 0),
    ensures
        raw_sub_last_path(subs, key) matches Some(p) ==> p.segments@.len() > 0,
    decreases subs.len(),
{
    if subs.len() > 0 {
        assert forall|j: int|
            0 <= j < subs.drop_last().len() implies ((#[trigger] subs.drop_last()[j].value)
            matches RawSubValue::PathGroup(p) ==> p.segments@.len() > 0) by {
            assert(subs.drop_last()[j] == subs[j]);
        }
        lemma_raw_sub_path_wf(subs.drop_last(), key);
        assert(subs.last() == subs[subs.len() - 1]);
    }
}

/// With well-formed raw paths, a configured super-interface path is never
/// empty.
pub proof fn lemma_raw_extends_wf(options: Seq<RawOption>)
    requires
        raw_paths_wf(options),
    ensures
        raw_extends(options) matches Some(p) ==> p.segments@.len() > 0,
    decreases options.len(),
{
    if options.len() > 0 {
        let last = options.last();
        assert(last == options[options.len() - 1]);
        if last.name@ == "inheritance"@ {
            match last.value {
                RawValue::Options(l) => {
                    assert forall|j: int|
                        0 <= j < l@.len() implies ((#[trigger] l@[j].value)
                        matches RawSubValue::PathGroup(p) ==> p.segments@.len() > 0) by {}
                    lemma_raw_sub_path_wf(l@, "extends"@);
                },
                _ => {},
            }
        } else {
            assert forall|i: int|
                0 <= i < options.drop_last().len() implies match (#[trigger] options.drop_last()[i]).value {
                RawValue::Options(l) => forall|j: int|
                    0 <= j < l@.len() ==> ((#[trigger] l@[j].value)
                        matches RawSubValue::PathGroup(p) ==> p.segments@.len() > 0),
                _ => true,
            } by {
                assert(options.drop_last()[i] == options[i]);
            }
            lemma_raw_extends_wf(options.drop_last());
        }
    }
}

} // verus!
