//! Setting names of `rustfmt.toml` and `rust-toolchain.toml`, the scalar kind
//! of each rustfmt setting, and which scalar assertions a setting admits.

use vstd::prelude::*;
use crate::requirements::{ConfigScalar, ScalarAssertion};

verus! {

/// A scalar setting of `rustfmt.toml`.
#[derive(Debug, Clone, Copy, PartialEq, Eq, Structural, PartialOrd, Ord, Hash)]
pub enum RustfmtScalarSetting {
    MaxWidth,
    HardTabs,
    TabSpaces,
    NewlineStyle,
    IndentStyle,
    UseSmallHeuristics,
    FnCallWidth,
    AttrFnLikeWidth,
    BlankLinesLowerBound,
    BlankLinesUpperBound,
    StructLitWidth,
    StructVariantWidth,
    ArrayWidth,
    ChainWidth,
    SingleLineIfElseMaxWidth,
    SingleLineLetElseMaxWidth,
    WrapComments,
    FormatCodeInDocComments,
    DocCommentCodeBlockWidth,
    CommentWidth,
    NormalizeComments,
    NormalizeDocAttributes,
    OverflowDelimitedExpr,
    FormatStrings,
    HexLiteralCase,
    FloatLiteralTrailingZero,
    FormatMacroBodies,
    FormatMacroMatchers,
    Color,
    ReorderImports,
    ReorderModules,
    GroupImports,
    ImportsGranularity,
    ImportsIndent,
    ImportsLayout,
    MergeImports,
    ReorderImplItems,
    EmptyItemSingleLine,
    StructLitSingleLine,
    FnSingleLine,
    WhereSingleLine,
    SpaceBeforeColon,
    SpaceAfterColon,
    SpacesAroundRanges,
    TypePunctuationDensity,
    BinopSeparator,
    BraceStyle,
    ControlBraceStyle,
    MatchArmBlocks,
    MatchArmLeadingPipes,
    MatchArmIndent,
    MatchBlockTrailingComma,
    ForceMultilineBlocks,
    FnArgsLayout,
    FnParamsLayout,
    MergeDerives,
    UseTryShorthand,
    UseFieldInitShorthand,
    RemoveNestedParens,
    CondenseWildcardSuffixes,
    ForceExplicitAbi,
    TrailingSemicolon,
    TrailingComma,
    CombineControlExpr,
    ShortArrayElementWidthThreshold,
    StructFieldAlignThreshold,
    EnumDiscrimAlignThreshold,
    InlineAttributeWidth,
    FormatGeneratedFiles,
    GeneratedMarkerLineSearchLimit,
    Edition,
    StyleEdition,
    Version,
    RequiredVersion,
    EmitMode,
    MakeBackup,
    PrintMisformattedFileNames,
    UnstableFeatures,
    DisableAllFormatting,
    SkipChildren,
    ErrorOnLineOverflow,
    ErrorOnUnformatted,
    HideParseErrors,
    ShowParseErrors,
}

/// The kind of value a scalar setting holds.
#[derive(Debug, Clone, Copy, PartialEq, Eq, Structural, Hash)]
pub enum RustfmtScalarKind {
    Bool,
    Int,
    Text,
}

impl RustfmtScalarSetting {
    /// The key of this setting in `rustfmt.toml`.
    pub open spec fn spec_file_key(self) -> Seq<char> {
        match self {
            RustfmtScalarSetting::MaxWidth => "max_width"@,
            RustfmtScalarSetting::HardTabs => "hard_tabs"@,
            RustfmtScalarSetting::TabSpaces => "tab_spaces"@,
            RustfmtScalarSetting::NewlineStyle => "newline_style"@,
            RustfmtScalarSetting::IndentStyle => "indent_style"@,
            RustfmtScalarSetting::UseSmallHeuristics => "use_small_heuristics"@,
            RustfmtScalarSetting::FnCallWidth => "fn_call_width"@,
            RustfmtScalarSetting::AttrFnLikeWidth => "attr_fn_like_width"@,
            RustfmtScalarSetting::BlankLinesLowerBound => "blank_lines_lower_bound"@,
            RustfmtScalarSetting::BlankLinesUpperBound => "blank_lines_upper_bound"@,
            RustfmtScalarSetting::StructLitWidth => "struct_lit_width"@,
            RustfmtScalarSetting::StructVariantWidth => "struct_variant_width"@,
            RustfmtScalarSetting::ArrayWidth => "array_width"@,
            RustfmtScalarSetting::ChainWidth => "chain_width"@,
            RustfmtScalarSetting::SingleLineIfElseMaxWidth => "single_line_if_else_max_width"@,
            RustfmtScalarSetting::SingleLineLetElseMaxWidth => "single_line_let_else_max_width"@,
            RustfmtScalarSetting::WrapComments => "wrap_comments"@,
            RustfmtScalarSetting::FormatCodeInDocComments => "format_code_in_doc_comments"@,
            RustfmtScalarSetting::DocCommentCodeBlockWidth => "doc_comment_code_block_width"@,
            RustfmtScalarSetting::CommentWidth => "comment_width"@,
            RustfmtScalarSetting::NormalizeComments => "normalize_comments"@,
            RustfmtScalarSetting::NormalizeDocAttributes => "normalize_doc_attributes"@,
            RustfmtScalarSetting::OverflowDelimitedExpr => "overflow_delimited_expr"@,
            RustfmtScalarSetting::FormatStrings => "format_strings"@,
            RustfmtScalarSetting::HexLiteralCase => "hex_literal_case"@,
            RustfmtScalarSetting::FloatLiteralTrailingZero => "float_literal_trailing_zero"@,
            RustfmtScalarSetting::FormatMacroBodies => "format_macro_bodies"@,
            RustfmtScalarSetting::FormatMacroMatchers => "format_macro_matchers"@,
            RustfmtScalarSetting::Color => "color"@,
            RustfmtScalarSetting::ReorderImports => "reorder_imports"@,
            RustfmtScalarSetting::ReorderModules => "reorder_modules"@,
            RustfmtScalarSetting::GroupImports => "group_imports"@,
            RustfmtScalarSetting::ImportsGranularity => "imports_granularity"@,
            RustfmtScalarSetting::ImportsIndent => "imports_indent"@,
            RustfmtScalarSetting::ImportsLayout => "imports_layout"@,
            RustfmtScalarSetting::MergeImports => "merge_imports"@,
            RustfmtScalarSetting::ReorderImplItems => "reorder_impl_items"@,
            RustfmtScalarSetting::EmptyItemSingleLine => "empty_item_single_line"@,
            RustfmtScalarSetting::StructLitSingleLine => "struct_lit_single_line"@,
            RustfmtScalarSetting::FnSingleLine => "fn_single_line"@,
            RustfmtScalarSetting::WhereSingleLine => "where_single_line"@,
            RustfmtScalarSetting::SpaceBeforeColon => "space_before_colon"@,
            RustfmtScalarSetting::SpaceAfterColon => "space_after_colon"@,
            RustfmtScalarSetting::SpacesAroundRanges => "spaces_around_ranges"@,
            RustfmtScalarSetting::TypePunctuationDensity => "type_punctuation_density"@,
            RustfmtScalarSetting::BinopSeparator => "binop_separator"@,
            RustfmtScalarSetting::BraceStyle => "brace_style"@,
            RustfmtScalarSetting::ControlBraceStyle => "control_brace_style"@,
            RustfmtScalarSetting::MatchArmBlocks => "match_arm_blocks"@,
            RustfmtScalarSetting::MatchArmLeadingPipes => "match_arm_leading_pipes"@,
            RustfmtScalarSetting::MatchArmIndent => "match_arm_indent"@,
            RustfmtScalarSetting::MatchBlockTrailingComma => "match_block_trailing_comma"@,
            RustfmtScalarSetting::ForceMultilineBlocks => "force_multiline_blocks"@,
            RustfmtScalarSetting::FnArgsLayout => "fn_args_layout"@,
            RustfmtScalarSetting::FnParamsLayout => "fn_params_layout"@,
            RustfmtScalarSetting::MergeDerives => "merge_derives"@,
            RustfmtScalarSetting::UseTryShorthand => "use_try_shorthand"@,
            RustfmtScalarSetting::UseFieldInitShorthand => "use_field_init_shorthand"@,
            RustfmtScalarSetting::RemoveNestedParens => "remove_nested_parens"@,
            RustfmtScalarSetting::CondenseWildcardSuffixes => "condense_wildcard_suffixes"@,
            RustfmtScalarSetting::ForceExplicitAbi => "force_explicit_abi"@,
            RustfmtScalarSetting::TrailingSemicolon => "trailing_semicolon"@,
            RustfmtScalarSetting::TrailingComma => "trailing_comma"@,
            RustfmtScalarSetting::CombineControlExpr => "combine_control_expr"@,
            RustfmtScalarSetting::ShortArrayElementWidthThreshold => "short_array_element_width_threshold"@,
            RustfmtScalarSetting::StructFieldAlignThreshold => "struct_field_align_threshold"@,
            RustfmtScalarSetting::EnumDiscrimAlignThreshold => "enum_discrim_align_threshold"@,
            RustfmtScalarSetting::InlineAttributeWidth => "inline_attribute_width"@,
            RustfmtScalarSetting::FormatGeneratedFiles => "format_generated_files"@,
            RustfmtScalarSetting::GeneratedMarkerLineSearchLimit => "generated_marker_line_search_limit"@,
            RustfmtScalarSetting::Edition => "edition"@,
            RustfmtScalarSetting::StyleEdition => "style_edition"@,
            RustfmtScalarSetting::Version => "version"@,
            RustfmtScalarSetting::RequiredVersion => "required_version"@,
            RustfmtScalarSetting::EmitMode => "emit_mode"@,
            RustfmtScalarSetting::MakeBackup => "make_backup"@,
            RustfmtScalarSetting::PrintMisformattedFileNames => "print_misformatted_file_names"@,
            RustfmtScalarSetting::UnstableFeatures => "unstable_features"@,
            RustfmtScalarSetting::DisableAllFormatting => "disable_all_formatting"@,
            RustfmtScalarSetting::SkipChildren => "skip_children"@,
            RustfmtScalarSetting::ErrorOnLineOverflow => "error_on_line_overflow"@,
            RustfmtScalarSetting::ErrorOnUnformatted => "error_on_unformatted"@,
            RustfmtScalarSetting::HideParseErrors => "hide_parse_errors"@,
            RustfmtScalarSetting::ShowParseErrors => "show_parse_errors"@,
        }
    }

    /// The key of this setting in `rustfmt.toml`.
    pub fn file_key(self) -> (r: &'static str)
        ensures
            r@ == self.spec_file_key(),
    {
        match self {
            RustfmtScalarSetting::MaxWidth => "max_width",
            RustfmtScalarSetting::HardTabs => "hard_tabs",
            RustfmtScalarSetting::TabSpaces => "tab_spaces",
            RustfmtScalarSetting::NewlineStyle => "newline_style",
            RustfmtScalarSetting::IndentStyle => "indent_style",
            RustfmtScalarSetting::UseSmallHeuristics => "use_small_heuristics",
            RustfmtScalarSetting::FnCallWidth => "fn_call_width",
            RustfmtScalarSetting::AttrFnLikeWidth => "attr_fn_like_width",
            RustfmtScalarSetting::BlankLinesLowerBound => "blank_lines_lower_bound",
            RustfmtScalarSetting::BlankLinesUpperBound => "blank_lines_upper_bound",
            RustfmtScalarSetting::StructLitWidth => "struct_lit_width",
            RustfmtScalarSetting::StructVariantWidth => "struct_variant_width",
            RustfmtScalarSetting::ArrayWidth => "array_width",
            RustfmtScalarSetting::ChainWidth => "chain_width",
            RustfmtScalarSetting::SingleLineIfElseMaxWidth => "single_line_if_else_max_width",
            RustfmtScalarSetting::SingleLineLetElseMaxWidth => "single_line_let_else_max_width",
            RustfmtScalarSetting::WrapComments => "wrap_comments",
            RustfmtScalarSetting::FormatCodeInDocComments => "format_code_in_doc_comments",
            RustfmtScalarSetting::DocCommentCodeBlockWidth => "doc_comment_code_block_width",
            RustfmtScalarSetting::CommentWidth => "comment_width",
            RustfmtScalarSetting::NormalizeComments => "normalize_comments",
            RustfmtScalarSetting::NormalizeDocAttributes => "normalize_doc_attributes",
            RustfmtScalarSetting::OverflowDelimitedExpr => "overflow_delimited_expr",
            RustfmtScalarSetting::FormatStrings => "format_strings",
            RustfmtScalarSetting::HexLiteralCase => "hex_literal_case",
            RustfmtScalarSetting::FloatLiteralTrailingZero => "float_literal_trailing_zero",
            RustfmtScalarSetting::FormatMacroBodies => "format_macro_bodies",
            RustfmtScalarSetting::FormatMacroMatchers => "format_macro_matchers",
            RustfmtScalarSetting::Color => "color",
            RustfmtScalarSetting::ReorderImports => "reorder_imports",
            RustfmtScalarSetting::ReorderModules => "reorder_modules",
            RustfmtScalarSetting::GroupImports => "group_imports",
            RustfmtScalarSetting::ImportsGranularity => "imports_granularity",
            RustfmtScalarSetting::ImportsIndent => "imports_indent",
            RustfmtScalarSetting::ImportsLayout => "imports_layout",
            RustfmtScalarSetting::MergeImports => "merge_imports",
            RustfmtScalarSetting::ReorderImplItems => "reorder_impl_items",
            RustfmtScalarSetting::EmptyItemSingleLine => "empty_item_single_line",
            RustfmtScalarSetting::StructLitSingleLine => "struct_lit_single_line",
            RustfmtScalarSetting::FnSingleLine => "fn_single_line",
            RustfmtScalarSetting::WhereSingleLine => "where_single_line",
            RustfmtScalarSetting::SpaceBeforeColon => "space_before_colon",
            RustfmtScalarSetting::SpaceAfterColon => "space_after_colon",
            RustfmtScalarSetting::SpacesAroundRanges => "spaces_around_ranges",
            RustfmtScalarSetting::TypePunctuationDensity => "type_punctuation_density",
            RustfmtScalarSetting::BinopSeparator => "binop_separator",
            RustfmtScalarSetting::BraceStyle => "brace_style",
            RustfmtScalarSetting::ControlBraceStyle => "control_brace_style",
            RustfmtScalarSetting::MatchArmBlocks => "match_arm_blocks",
            RustfmtScalarSetting::MatchArmLeadingPipes => "match_arm_leading_pipes",
            RustfmtScalarSetting::MatchArmIndent => "match_arm_indent",
            RustfmtScalarSetting::MatchBlockTrailingComma => "match_block_trailing_comma",
            RustfmtScalarSetting::ForceMultilineBlocks => "force_multiline_blocks",
            RustfmtScalarSetting::FnArgsLayout => "fn_args_layout",
            RustfmtScalarSetting::FnParamsLayout => "fn_params_layout",
            RustfmtScalarSetting::MergeDerives => "merge_derives",
            RustfmtScalarSetting::UseTryShorthand => "use_try_shorthand",
            RustfmtScalarSetting::UseFieldInitShorthand => "use_field_init_shorthand",
            RustfmtScalarSetting::RemoveNestedParens => "remove_nested_parens",
            RustfmtScalarSetting::CondenseWildcardSuffixes => "condense_wildcard_suffixes",
            RustfmtScalarSetting::ForceExplicitAbi => "force_explicit_abi",
            RustfmtScalarSetting::TrailingSemicolon => "trailing_semicolon",
            RustfmtScalarSetting::TrailingComma => "trailing_comma",
            RustfmtScalarSetting::CombineControlExpr => "combine_control_expr",
            RustfmtScalarSetting::ShortArrayElementWidthThreshold => "short_array_element_width_threshold",
            RustfmtScalarSetting::StructFieldAlignThreshold => "struct_field_align_threshold",
            RustfmtScalarSetting::EnumDiscrimAlignThreshold => "enum_discrim_align_threshold",
            RustfmtScalarSetting::InlineAttributeWidth => "inline_attribute_width",
            RustfmtScalarSetting::FormatGeneratedFiles => "format_generated_files",
            RustfmtScalarSetting::GeneratedMarkerLineSearchLimit => "generated_marker_line_search_limit",
            RustfmtScalarSetting::Edition => "edition",
            RustfmtScalarSetting::StyleEdition => "style_edition",
            RustfmtScalarSetting::Version => "version",
            RustfmtScalarSetting::RequiredVersion => "required_version",
            RustfmtScalarSetting::EmitMode => "emit_mode",
            RustfmtScalarSetting::MakeBackup => "make_backup",
            RustfmtScalarSetting::PrintMisformattedFileNames => "print_misformatted_file_names",
            RustfmtScalarSetting::UnstableFeatures => "unstable_features",
            RustfmtScalarSetting::DisableAllFormatting => "disable_all_formatting",
            RustfmtScalarSetting::SkipChildren => "skip_children",
            RustfmtScalarSetting::ErrorOnLineOverflow => "error_on_line_overflow",
            RustfmtScalarSetting::ErrorOnUnformatted => "error_on_unformatted",
            RustfmtScalarSetting::HideParseErrors => "hide_parse_errors",
            RustfmtScalarSetting::ShowParseErrors => "show_parse_errors",
        }
    }

    /// The kind of value this setting holds.
    pub open spec fn spec_scalar_kind(self) -> RustfmtScalarKind {
        match self {
            RustfmtScalarSetting::MaxWidth => RustfmtScalarKind::Int,
            RustfmtScalarSetting::HardTabs => RustfmtScalarKind::Bool,
            RustfmtScalarSetting::TabSpaces => RustfmtScalarKind::Int,
            RustfmtScalarSetting::NewlineStyle => RustfmtScalarKind::Text,
            RustfmtScalarSetting::IndentStyle => RustfmtScalarKind::Text,
            RustfmtScalarSetting::UseSmallHeuristics => RustfmtScalarKind::Text,
            RustfmtScalarSetting::FnCallWidth => RustfmtScalarKind::Int,
            RustfmtScalarSetting::AttrFnLikeWidth => RustfmtScalarKind::Int,
            RustfmtScalarSetting::BlankLinesLowerBound => RustfmtScalarKind::Int,
            RustfmtScalarSetting::BlankLinesUpperBound => RustfmtScalarKind::Int,
            RustfmtScalarSetting::StructLitWidth => RustfmtScalarKind::Int,
            RustfmtScalarSetting::StructVariantWidth => RustfmtScalarKind::Int,
            RustfmtScalarSetting::ArrayWidth => RustfmtScalarKind::Int,
            RustfmtScalarSetting::ChainWidth => RustfmtScalarKind::Int,
            RustfmtScalarSetting::SingleLineIfElseMaxWidth => RustfmtScalarKind::Int,
            RustfmtScalarSetting::SingleLineLetElseMaxWidth => RustfmtScalarKind::Int,
            RustfmtScalarSetting::WrapComments => RustfmtScalarKind::Bool,
            RustfmtScalarSetting::FormatCodeInDocComments => RustfmtScalarKind::Bool,
            RustfmtScalarSetting::DocCommentCodeBlockWidth => RustfmtScalarKind::Int,
            RustfmtScalarSetting::CommentWidth => RustfmtScalarKind::Int,
            RustfmtScalarSetting::NormalizeComments => RustfmtScalarKind::Bool,
            RustfmtScalarSetting::NormalizeDocAttributes => RustfmtScalarKind::Bool,
            RustfmtScalarSetting::OverflowDelimitedExpr => RustfmtScalarKind::Bool,
            RustfmtScalarSetting::FormatStrings => RustfmtScalarKind::Bool,
            RustfmtScalarSetting::HexLiteralCase => RustfmtScalarKind::Text,
            RustfmtScalarSetting::FloatLiteralTrailingZero => RustfmtScalarKind::Text,
            RustfmtScalarSetting::FormatMacroBodies => RustfmtScalarKind::Bool,
            RustfmtScalarSetting::FormatMacroMatchers => RustfmtScalarKind::Bool,
            RustfmtScalarSetting::Color => RustfmtScalarKind::Text,
            RustfmtScalarSetting::ReorderImports => RustfmtScalarKind::Bool,
            RustfmtScalarSetting::ReorderModules => RustfmtScalarKind::Bool,
            RustfmtScalarSetting::GroupImports => RustfmtScalarKind::Text,
            RustfmtScalarSetting::ImportsGranularity => RustfmtScalarKind::Text,
            RustfmtScalarSetting::ImportsIndent => RustfmtScalarKind::Text,
            RustfmtScalarSetting::ImportsLayout => RustfmtScalarKind::Text,
            RustfmtScalarSetting::MergeImports => RustfmtScalarKind::Bool,
            RustfmtScalarSetting::ReorderImplItems => RustfmtScalarKind::Bool,
            RustfmtScalarSetting::EmptyItemSingleLine => RustfmtScalarKind::Bool,
            RustfmtScalarSetting::StructLitSingleLine => RustfmtScalarKind::Bool,
            RustfmtScalarSetting::FnSingleLine => RustfmtScalarKind::Bool,
            RustfmtScalarSetting::WhereSingleLine => RustfmtScalarKind::Bool,
            RustfmtScalarSetting::SpaceBeforeColon => RustfmtScalarKind::Bool,
            RustfmtScalarSetting::SpaceAfterColon => RustfmtScalarKind::Bool,
            RustfmtScalarSetting::SpacesAroundRanges => RustfmtScalarKind::Bool,
            RustfmtScalarSetting::TypePunctuationDensity => RustfmtScalarKind::Text,
            RustfmtScalarSetting::BinopSeparator => RustfmtScalarKind::Text,
            RustfmtScalarSetting::BraceStyle => RustfmtScalarKind::Text,
            RustfmtScalarSetting::ControlBraceStyle => RustfmtScalarKind::Text,
            RustfmtScalarSetting::MatchArmBlocks => RustfmtScalarKind::Text,
            RustfmtScalarSetting::MatchArmLeadingPipes => RustfmtScalarKind::Text,
            RustfmtScalarSetting::MatchArmIndent => RustfmtScalarKind::Text,
            RustfmtScalarSetting::MatchBlockTrailingComma => RustfmtScalarKind::Bool,
            RustfmtScalarSetting::ForceMultilineBlocks => RustfmtScalarKind::Bool,
            RustfmtScalarSetting::FnArgsLayout => RustfmtScalarKind::Text,
            RustfmtScalarSetting::FnParamsLayout => RustfmtScalarKind::Text,
            RustfmtScalarSetting::MergeDerives => RustfmtScalarKind::Bool,
            RustfmtScalarSetting::UseTryShorthand => RustfmtScalarKind::Bool,
            RustfmtScalarSetting::UseFieldInitShorthand => RustfmtScalarKind::Bool,
            RustfmtScalarSetting::RemoveNestedParens => RustfmtScalarKind::Bool,
            RustfmtScalarSetting::CondenseWildcardSuffixes => RustfmtScalarKind::Bool,
            RustfmtScalarSetting::ForceExplicitAbi => RustfmtScalarKind::Bool,
            RustfmtScalarSetting::TrailingSemicolon => RustfmtScalarKind::Text,
            RustfmtScalarSetting::TrailingComma => RustfmtScalarKind::Text,
            RustfmtScalarSetting::CombineControlExpr => RustfmtScalarKind::Bool,
            RustfmtScalarSetting::ShortArrayElementWidthThreshold => RustfmtScalarKind::Int,
            RustfmtScalarSetting::StructFieldAlignThreshold => RustfmtScalarKind::Int,
            RustfmtScalarSetting::EnumDiscrimAlignThreshold => RustfmtScalarKind::Int,
            RustfmtScalarSetting::InlineAttributeWidth => RustfmtScalarKind::Int,
            RustfmtScalarSetting::FormatGeneratedFiles => RustfmtScalarKind::Bool,
            RustfmtScalarSetting::GeneratedMarkerLineSearchLimit => RustfmtScalarKind::Int,
            RustfmtScalarSetting::Edition => RustfmtScalarKind::Text,
            RustfmtScalarSetting::StyleEdition => RustfmtScalarKind::Text,
            RustfmtScalarSetting::Version => RustfmtScalarKind::Text,
            RustfmtScalarSetting::RequiredVersion => RustfmtScalarKind::Text,
            RustfmtScalarSetting::EmitMode => RustfmtScalarKind::Text,
            RustfmtScalarSetting::MakeBackup => RustfmtScalarKind::Bool,
            RustfmtScalarSetting::PrintMisformattedFileNames => RustfmtScalarKind::Bool,
            RustfmtScalarSetting::UnstableFeatures => RustfmtScalarKind::Bool,
            RustfmtScalarSetting::DisableAllFormatting => RustfmtScalarKind::Bool,
            RustfmtScalarSetting::SkipChildren => RustfmtScalarKind::Bool,
            RustfmtScalarSetting::ErrorOnLineOverflow => RustfmtScalarKind::Bool,
            RustfmtScalarSetting::ErrorOnUnformatted => RustfmtScalarKind::Bool,
            RustfmtScalarSetting::HideParseErrors => RustfmtScalarKind::Bool,
            RustfmtScalarSetting::ShowParseErrors => RustfmtScalarKind::Bool,
        }
    }

    /// The kind of value this setting holds.
    pub fn scalar_kind(self) -> (r: RustfmtScalarKind)
        ensures
            r == self.spec_scalar_kind(),
    {
        match self {
            RustfmtScalarSetting::MaxWidth => RustfmtScalarKind::Int,
            RustfmtScalarSetting::HardTabs => RustfmtScalarKind::Bool,
            RustfmtScalarSetting::TabSpaces => RustfmtScalarKind::Int,
            RustfmtScalarSetting::NewlineStyle => RustfmtScalarKind::Text,
            RustfmtScalarSetting::IndentStyle => RustfmtScalarKind::Text,
            RustfmtScalarSetting::UseSmallHeuristics => RustfmtScalarKind::Text,
            RustfmtScalarSetting::FnCallWidth => RustfmtScalarKind::Int,
            RustfmtScalarSetting::AttrFnLikeWidth => RustfmtScalarKind::Int,
            RustfmtScalarSetting::BlankLinesLowerBound => RustfmtScalarKind::Int,
            RustfmtScalarSetting::BlankLinesUpperBound => RustfmtScalarKind::Int,
            RustfmtScalarSetting::StructLitWidth => RustfmtScalarKind::Int,
            RustfmtScalarSetting::StructVariantWidth => RustfmtScalarKind::Int,
            RustfmtScalarSetting::ArrayWidth => RustfmtScalarKind::Int,
            RustfmtScalarSetting::ChainWidth => RustfmtScalarKind::Int,
            RustfmtScalarSetting::SingleLineIfElseMaxWidth => RustfmtScalarKind::Int,
            RustfmtScalarSetting::SingleLineLetElseMaxWidth => RustfmtScalarKind::Int,
            RustfmtScalarSetting::WrapComments => RustfmtScalarKind::Bool,
            RustfmtScalarSetting::FormatCodeInDocComments => RustfmtScalarKind::Bool,
            RustfmtScalarSetting::DocCommentCodeBlockWidth => RustfmtScalarKind::Int,
            RustfmtScalarSetting::CommentWidth => RustfmtScalarKind::Int,
            RustfmtScalarSetting::NormalizeComments => RustfmtScalarKind::Bool,
            RustfmtScalarSetting::NormalizeDocAttributes => RustfmtScalarKind::Bool,
            RustfmtScalarSetting::OverflowDelimitedExpr => RustfmtScalarKind::Bool,
            RustfmtScalarSetting::FormatStrings => RustfmtScalarKind::Bool,
            RustfmtScalarSetting::HexLiteralCase => RustfmtScalarKind::Text,
            RustfmtScalarSetting::FloatLiteralTrailingZero => RustfmtScalarKind::Text,
            RustfmtScalarSetting::FormatMacroBodies => RustfmtScalarKind::Bool,
            RustfmtScalarSetting::FormatMacroMatchers => RustfmtScalarKind::Bool,
            RustfmtScalarSetting::Color => RustfmtScalarKind::Text,
            RustfmtScalarSetting::ReorderImports => RustfmtScalarKind::Bool,
            RustfmtScalarSetting::ReorderModules => RustfmtScalarKind::Bool,
            RustfmtScalarSetting::GroupImports => RustfmtScalarKind::Text,
            RustfmtScalarSetting::ImportsGranularity => RustfmtScalarKind::Text,
            RustfmtScalarSetting::ImportsIndent => RustfmtScalarKind::Text,
            RustfmtScalarSetting::ImportsLayout => RustfmtScalarKind::Text,
            RustfmtScalarSetting::MergeImports => RustfmtScalarKind::Bool,
            RustfmtScalarSetting::ReorderImplItems => RustfmtScalarKind::Bool,
            RustfmtScalarSetting::EmptyItemSingleLine => RustfmtScalarKind::Bool,
            RustfmtScalarSetting::StructLitSingleLine => RustfmtScalarKind::Bool,
            RustfmtScalarSetting::FnSingleLine => RustfmtScalarKind::Bool,
            RustfmtScalarSetting::WhereSingleLine => RustfmtScalarKind::Bool,
            RustfmtScalarSetting::SpaceBeforeColon => RustfmtScalarKind::Bool,
            RustfmtScalarSetting::SpaceAfterColon => RustfmtScalarKind::Bool,
            RustfmtScalarSetting::SpacesAroundRanges => RustfmtScalarKind::Bool,
            RustfmtScalarSetting::TypePunctuationDensity => RustfmtScalarKind::Text,
            RustfmtScalarSetting::BinopSeparator => RustfmtScalarKind::Text,
            RustfmtScalarSetting::BraceStyle => RustfmtScalarKind::Text,
            RustfmtScalarSetting::ControlBraceStyle => RustfmtScalarKind::Text,
            RustfmtScalarSetting::MatchArmBlocks => RustfmtScalarKind::Text,
            RustfmtScalarSetting::MatchArmLeadingPipes => RustfmtScalarKind::Text,
            RustfmtScalarSetting::MatchArmIndent => RustfmtScalarKind::Text,
            RustfmtScalarSetting::MatchBlockTrailingComma => RustfmtScalarKind::Bool,
            RustfmtScalarSetting::ForceMultilineBlocks => RustfmtScalarKind::Bool,
            RustfmtScalarSetting::FnArgsLayout => RustfmtScalarKind::Text,
            RustfmtScalarSetting::FnParamsLayout => RustfmtScalarKind::Text,
            RustfmtScalarSetting::MergeDerives => RustfmtScalarKind::Bool,
            RustfmtScalarSetting::UseTryShorthand => RustfmtScalarKind::Bool,
            RustfmtScalarSetting::UseFieldInitShorthand => RustfmtScalarKind::Bool,
            RustfmtScalarSetting::RemoveNestedParens => RustfmtScalarKind::Bool,
            RustfmtScalarSetting::CondenseWildcardSuffixes => RustfmtScalarKind::Bool,
            RustfmtScalarSetting::ForceExplicitAbi => RustfmtScalarKind::Bool,
            RustfmtScalarSetting::TrailingSemicolon => RustfmtScalarKind::Text,
            RustfmtScalarSetting::TrailingComma => RustfmtScalarKind::Text,
            RustfmtScalarSetting::CombineControlExpr => RustfmtScalarKind::Bool,
            RustfmtScalarSetting::ShortArrayElementWidthThreshold => RustfmtScalarKind::Int,
            RustfmtScalarSetting::StructFieldAlignThreshold => RustfmtScalarKind::Int,
            RustfmtScalarSetting::EnumDiscrimAlignThreshold => RustfmtScalarKind::Int,
            RustfmtScalarSetting::InlineAttributeWidth => RustfmtScalarKind::Int,
            RustfmtScalarSetting::FormatGeneratedFiles => RustfmtScalarKind::Bool,
            RustfmtScalarSetting::GeneratedMarkerLineSearchLimit => RustfmtScalarKind::Int,
            RustfmtScalarSetting::Edition => RustfmtScalarKind::Text,
            RustfmtScalarSetting::StyleEdition => RustfmtScalarKind::Text,
            RustfmtScalarSetting::Version => RustfmtScalarKind::Text,
            RustfmtScalarSetting::RequiredVersion => RustfmtScalarKind::Text,
            RustfmtScalarSetting::EmitMode => RustfmtScalarKind::Text,
            RustfmtScalarSetting::MakeBackup => RustfmtScalarKind::Bool,
            RustfmtScalarSetting::PrintMisformattedFileNames => RustfmtScalarKind::Bool,
            RustfmtScalarSetting::UnstableFeatures => RustfmtScalarKind::Bool,
            RustfmtScalarSetting::DisableAllFormatting => RustfmtScalarKind::Bool,
            RustfmtScalarSetting::SkipChildren => RustfmtScalarKind::Bool,
            RustfmtScalarSetting::ErrorOnLineOverflow => RustfmtScalarKind::Bool,
            RustfmtScalarSetting::ErrorOnUnformatted => RustfmtScalarKind::Bool,
            RustfmtScalarSetting::HideParseErrors => RustfmtScalarKind::Bool,
            RustfmtScalarSetting::ShowParseErrors => RustfmtScalarKind::Bool,
        }
    }

    /// Whether this setting admits `assertion`: never an ordered assertion;
    /// a boolean setting takes a boolean `Equals`, `Present` or `Absent`; an
    /// integer or text setting also takes `OneOf` over values of its kind.
    pub open spec fn spec_assertion_is_legal(self, assertion: ScalarAssertion<ConfigScalar>) -> bool {
        match self.spec_scalar_kind() {
            RustfmtScalarKind::Bool => match assertion {
                ScalarAssertion::Equals(v, _) => v is Bool,
                ScalarAssertion::Present(_) => true,
                ScalarAssertion::Absent(_) => true,
                _ => false,
            },
            RustfmtScalarKind::Int => match assertion {
                ScalarAssertion::Equals(v, _) => v is Int,
                ScalarAssertion::OneOf(vs, _) => forall|i: int| 0 <= i < vs.len() ==> #[trigger] vs[i] is Int,
                ScalarAssertion::Present(_) => true,
                ScalarAssertion::Absent(_) => true,
                _ => false,
            },
            RustfmtScalarKind::Text => match assertion {
                ScalarAssertion::Equals(v, _) => v is Str,
                ScalarAssertion::OneOf(vs, _) => forall|i: int| 0 <= i < vs.len() ==> #[trigger] vs[i] is Str,
                ScalarAssertion::Present(_) => true,
                ScalarAssertion::Absent(_) => true,
                _ => false,
            },
        }
    }

    /// Whether this setting admits `assertion`.
    pub fn scalar_assertion_is_legal(self, assertion: &ScalarAssertion<ConfigScalar>) -> (r: bool)
        ensures
            r == self.spec_assertion_is_legal(*assertion),
    {
        let kind = self.scalar_kind();
        match assertion {
            ScalarAssertion::Equals(v, _) => match kind {
                RustfmtScalarKind::Bool => matches!(v, ConfigScalar::Bool(_)),
                RustfmtScalarKind::Int => matches!(v, ConfigScalar::Int(_)),
                RustfmtScalarKind::Text => matches!(v, ConfigScalar::Str(_)),
            },
            ScalarAssertion::OneOf(vs, _) => match kind {
                RustfmtScalarKind::Bool => false,
                RustfmtScalarKind::Int => all_int(vs),
                RustfmtScalarKind::Text => all_str(vs),
            },
            ScalarAssertion::Present(_) => true,
            ScalarAssertion::Absent(_) => true,
            _ => false,
        }
    }
}

fn all_int(vs: &Vec<ConfigScalar>) -> (r: bool)
    ensures
        r == forall|i: int| 0 <= i < vs@.len() ==> #[trigger] vs@[i] is Int,
{
    let mut i: usize = 0;
    while i < vs.len()
        invariant
            i <= vs.len(),
            forall|j: int| 0 <= j < i ==> #[trigger] vs@[j] is Int,
        decreases vs.len() - i,
    {
        if !matches!(vs[i], ConfigScalar::Int(_)) {
            return false;
        }
        i = i + 1;
    }
    true
}

fn all_str(vs: &Vec<ConfigScalar>) -> (r: bool)
    ensures
        r == forall|i: int| 0 <= i < vs@.len() ==> #[trigger] vs@[i] is Str,
{
    let mut i: usize = 0;
    while i < vs.len()
        invariant
            i <= vs.len(),
            forall|j: int| 0 <= j < i ==> #[trigger] vs@[j] is Str,
        decreases vs.len() - i,
    {
        if !matches!(vs[i], ConfigScalar::Str(_)) {
            return false;
        }
        i = i + 1;
    }
    true
}

/// A list setting of `rustfmt.toml`.
#[derive(Debug, Clone, Copy, PartialEq, Eq, Structural, PartialOrd, Ord, Hash)]
pub enum RustfmtListSetting {
    Ignore,
    SkipMacroInvocations,
}

impl RustfmtListSetting {
    /// The key of this setting in `rustfmt.toml`.
    pub open spec fn spec_file_key(self) -> Seq<char> {
        match self {
            RustfmtListSetting::Ignore => "ignore"@,
            RustfmtListSetting::SkipMacroInvocations => "skip_macro_invocations"@,
        }
    }

    /// The key of this setting in `rustfmt.toml`.
    pub fn file_key(self) -> (r: &'static str)
        ensures
            r@ == self.spec_file_key(),
    {
        match self {
            RustfmtListSetting::Ignore => "ignore",
            RustfmtListSetting::SkipMacroInvocations => "skip_macro_invocations",
        }
    }
}

/// A scalar setting of the `[toolchain]` table.
#[derive(Debug, Clone, Copy, PartialEq, Eq, Structural, PartialOrd, Ord, Hash)]
pub enum RustToolchainScalarSetting {
    Channel,
    Path,
    Profile,
}

impl RustToolchainScalarSetting {
    /// The key of this setting in `[toolchain]`.
    pub open spec fn spec_file_key(self) -> Seq<char> {
        match self {
            RustToolchainScalarSetting::Channel => "channel"@,
            RustToolchainScalarSetting::Path => "path"@,
            RustToolchainScalarSetting::Profile => "profile"@,
        }
    }

    /// The key of this setting in `[toolchain]`.
    pub fn file_key(self) -> (r: &'static str)
        ensures
            r@ == self.spec_file_key(),
    {
        match self {
            RustToolchainScalarSetting::Channel => "channel",
            RustToolchainScalarSetting::Path => "path",
            RustToolchainScalarSetting::Profile => "profile",
        }
    }

    /// Whether a toolchain setting admits `assertion`: a text `Equals`, any
    /// `OneOf`, `Present` or `Absent`; never an ordered assertion.
    pub open spec fn spec_assertion_is_legal(self, assertion: ScalarAssertion<ConfigScalar>) -> bool {
        match assertion {
            ScalarAssertion::Equals(v, _) => v is Str,
            ScalarAssertion::OneOf(_, _) => true,
            ScalarAssertion::Present(_) => true,
            ScalarAssertion::Absent(_) => true,
            _ => false,
        }
    }

    /// Whether a toolchain setting admits `assertion`.
    pub fn scalar_assertion_is_legal(self, assertion: &ScalarAssertion<ConfigScalar>) -> (r: bool)
        ensures
            r == self.spec_assertion_is_legal(*assertion),
    {
        match assertion {
            ScalarAssertion::Equals(v, _) => matches!(v, ConfigScalar::Str(_)),
            ScalarAssertion::OneOf(_, _) => true,
            ScalarAssertion::Present(_) => true,
            ScalarAssertion::Absent(_) => true,
            _ => false,
        }
    }
}

/// A list setting of the `[toolchain]` table.
#[derive(Debug, Clone, Copy, PartialEq, Eq, Structural, PartialOrd, Ord, Hash)]
pub enum RustToolchainListSetting {
    Components,
    Targets,
}

impl RustToolchainListSetting {
    /// The key of this setting in `[toolchain]`.
    pub open spec fn spec_file_key(self) -> Seq<char> {
        match self {
            RustToolchainListSetting::Components => "components"@,
            RustToolchainListSetting::Targets => "targets"@,
        }
    }

    /// The key of this setting in `[toolchain]`.
    pub fn file_key(self) -> (r: &'static str)
        ensures
            r@ == self.spec_file_key(),
    {
        match self {
            RustToolchainListSetting::Components => "components",
            RustToolchainListSetting::Targets => "targets",
        }
    }
}

/// The scalar setting at position `i` of the declaration order, if any.
pub open spec fn spec_scalar_setting_at(i: int) -> Option<RustfmtScalarSetting> {
    if i == 0 {
        Some(RustfmtScalarSetting::MaxWidth)
    } else if i == 1 {
        Some(RustfmtScalarSetting::HardTabs)
    } else if i == 2 {
        Some(RustfmtScalarSetting::TabSpaces)
    } else if i == 3 {
        Some(RustfmtScalarSetting::NewlineStyle)
    } else if i == 4 {
        Some(RustfmtScalarSetting::IndentStyle)
    } else if i == 5 {
        Some(RustfmtScalarSetting::UseSmallHeuristics)
    } else if i == 6 {
        Some(RustfmtScalarSetting::FnCallWidth)
    } else if i == 7 {
        Some(RustfmtScalarSetting::AttrFnLikeWidth)
    } else if i == 8 {
        Some(RustfmtScalarSetting::BlankLinesLowerBound)
    } else if i == 9 {
        Some(RustfmtScalarSetting::BlankLinesUpperBound)
    } else if i == 10 {
        Some(RustfmtScalarSetting::StructLitWidth)
    } else if i == 11 {
        Some(RustfmtScalarSetting::StructVariantWidth)
    } else if i == 12 {
        Some(RustfmtScalarSetting::ArrayWidth)
    } else if i == 13 {
        Some(RustfmtScalarSetting::ChainWidth)
    } else if i == 14 {
        Some(RustfmtScalarSetting::SingleLineIfElseMaxWidth)
    } else if i == 15 {
        Some(RustfmtScalarSetting::SingleLineLetElseMaxWidth)
    } else if i == 16 {
        Some(RustfmtScalarSetting::WrapComments)
    } else if i == 17 {
        Some(RustfmtScalarSetting::FormatCodeInDocComments)
    } else if i == 18 {
        Some(RustfmtScalarSetting::DocCommentCodeBlockWidth)
    } else if i == 19 {
        Some(RustfmtScalarSetting::CommentWidth)
    } else if i == 20 {
        Some(RustfmtScalarSetting::NormalizeComments)
    } else if i == 21 {
        Some(RustfmtScalarSetting::NormalizeDocAttributes)
    } else if i == 22 {
        Some(RustfmtScalarSetting::OverflowDelimitedExpr)
    } else if i == 23 {
        Some(RustfmtScalarSetting::FormatStrings)
    } else if i == 24 {
        Some(RustfmtScalarSetting::HexLiteralCase)
    } else if i == 25 {
        Some(RustfmtScalarSetting::FloatLiteralTrailingZero)
    } else if i == 26 {
        Some(RustfmtScalarSetting::FormatMacroBodies)
    } else if i == 27 {
        Some(RustfmtScalarSetting::FormatMacroMatchers)
    } else if i == 28 {
        Some(RustfmtScalarSetting::Color)
    } else if i == 29 {
        Some(RustfmtScalarSetting::ReorderImports)
    } else if i == 30 {
        Some(RustfmtScalarSetting::ReorderModules)
    } else if i == 31 {
        Some(RustfmtScalarSetting::GroupImports)
    } else if i == 32 {
        Some(RustfmtScalarSetting::ImportsGranularity)
    } else if i == 33 {
        Some(RustfmtScalarSetting::ImportsIndent)
    } else if i == 34 {
        Some(RustfmtScalarSetting::ImportsLayout)
    } else if i == 35 {
        Some(RustfmtScalarSetting::MergeImports)
    } else if i == 36 {
        Some(RustfmtScalarSetting::ReorderImplItems)
    } else if i == 37 {
        Some(RustfmtScalarSetting::EmptyItemSingleLine)
    } else if i == 38 {
        Some(RustfmtScalarSetting::StructLitSingleLine)
    } else if i == 39 {
        Some(RustfmtScalarSetting::FnSingleLine)
    } else if i == 40 {
        Some(RustfmtScalarSetting::WhereSingleLine)
    } else if i == 41 {
        Some(RustfmtScalarSetting::SpaceBeforeColon)
    } else if i == 42 {
        Some(RustfmtScalarSetting::SpaceAfterColon)
    } else if i == 43 {
        Some(RustfmtScalarSetting::SpacesAroundRanges)
    } else if i == 44 {
        Some(RustfmtScalarSetting::TypePunctuationDensity)
    } else if i == 45 {
        Some(RustfmtScalarSetting::BinopSeparator)
    } else if i == 46 {
        Some(RustfmtScalarSetting::BraceStyle)
    } else if i == 47 {
        Some(RustfmtScalarSetting::ControlBraceStyle)
    } else if i == 48 {
        Some(RustfmtScalarSetting::MatchArmBlocks)
    } else if i == 49 {
        Some(RustfmtScalarSetting::MatchArmLeadingPipes)
    } else if i == 50 {
        Some(RustfmtScalarSetting::MatchArmIndent)
    } else if i == 51 {
        Some(RustfmtScalarSetting::MatchBlockTrailingComma)
    } else if i == 52 {
        Some(RustfmtScalarSetting::ForceMultilineBlocks)
    } else if i == 53 {
        Some(RustfmtScalarSetting::FnArgsLayout)
    } else if i == 54 {
        Some(RustfmtScalarSetting::FnParamsLayout)
    } else if i == 55 {
        Some(RustfmtScalarSetting::MergeDerives)
    } else if i == 56 {
        Some(RustfmtScalarSetting::UseTryShorthand)
    } else if i == 57 {
        Some(RustfmtScalarSetting::UseFieldInitShorthand)
    } else if i == 58 {
        Some(RustfmtScalarSetting::RemoveNestedParens)
    } else if i == 59 {
        Some(RustfmtScalarSetting::CondenseWildcardSuffixes)
    } else if i == 60 {
        Some(RustfmtScalarSetting::ForceExplicitAbi)
    } else if i == 61 {
        Some(RustfmtScalarSetting::TrailingSemicolon)
    } else if i == 62 {
        Some(RustfmtScalarSetting::TrailingComma)
    } else if i == 63 {
        Some(RustfmtScalarSetting::CombineControlExpr)
    } else if i == 64 {
        Some(RustfmtScalarSetting::ShortArrayElementWidthThreshold)
    } else if i == 65 {
        Some(RustfmtScalarSetting::StructFieldAlignThreshold)
    } else if i == 66 {
        Some(RustfmtScalarSetting::EnumDiscrimAlignThreshold)
    } else if i == 67 {
        Some(RustfmtScalarSetting::InlineAttributeWidth)
    } else if i == 68 {
        Some(RustfmtScalarSetting::FormatGeneratedFiles)
    } else if i == 69 {
        Some(RustfmtScalarSetting::GeneratedMarkerLineSearchLimit)
    } else if i == 70 {
        Some(RustfmtScalarSetting::Edition)
    } else if i == 71 {
        Some(RustfmtScalarSetting::StyleEdition)
    } else if i == 72 {
        Some(RustfmtScalarSetting::Version)
    } else if i == 73 {
        Some(RustfmtScalarSetting::RequiredVersion)
    } else if i == 74 {
        Some(RustfmtScalarSetting::EmitMode)
    } else if i == 75 {
        Some(RustfmtScalarSetting::MakeBackup)
    } else if i == 76 {
        Some(RustfmtScalarSetting::PrintMisformattedFileNames)
    } else if i == 77 {
        Some(RustfmtScalarSetting::UnstableFeatures)
    } else if i == 78 {
        Some(RustfmtScalarSetting::DisableAllFormatting)
    } else if i == 79 {
        Some(RustfmtScalarSetting::SkipChildren)
    } else if i == 80 {
        Some(RustfmtScalarSetting::ErrorOnLineOverflow)
    } else if i == 81 {
        Some(RustfmtScalarSetting::ErrorOnUnformatted)
    } else if i == 82 {
        Some(RustfmtScalarSetting::HideParseErrors)
    } else if i == 83 {
        Some(RustfmtScalarSetting::ShowParseErrors)
    } else {
        None
    }
}

/// The scalar setting at position `i` of the declaration order, if any.
pub fn scalar_setting_at(i: usize) -> (r: Option<RustfmtScalarSetting>)
    ensures
        r == spec_scalar_setting_at(i as int),
{
    if i == 0 {
        Some(RustfmtScalarSetting::MaxWidth)
    } else if i == 1 {
        Some(RustfmtScalarSetting::HardTabs)
    } else if i == 2 {
        Some(RustfmtScalarSetting::TabSpaces)
    } else if i == 3 {
        Some(RustfmtScalarSetting::NewlineStyle)
    } else if i == 4 {
        Some(RustfmtScalarSetting::IndentStyle)
    } else if i == 5 {
        Some(RustfmtScalarSetting::UseSmallHeuristics)
    } else if i == 6 {
        Some(RustfmtScalarSetting::FnCallWidth)
    } else if i == 7 {
        Some(RustfmtScalarSetting::AttrFnLikeWidth)
    } else if i == 8 {
        Some(RustfmtScalarSetting::BlankLinesLowerBound)
    } else if i == 9 {
        Some(RustfmtScalarSetting::BlankLinesUpperBound)
    } else if i == 10 {
        Some(RustfmtScalarSetting::StructLitWidth)
    } else if i == 11 {
        Some(RustfmtScalarSetting::StructVariantWidth)
    } else if i == 12 {
        Some(RustfmtScalarSetting::ArrayWidth)
    } else if i == 13 {
        Some(RustfmtScalarSetting::ChainWidth)
    } else if i == 14 {
        Some(RustfmtScalarSetting::SingleLineIfElseMaxWidth)
    } else if i == 15 {
        Some(RustfmtScalarSetting::SingleLineLetElseMaxWidth)
    } else if i == 16 {
        Some(RustfmtScalarSetting::WrapComments)
    } else if i == 17 {
        Some(RustfmtScalarSetting::FormatCodeInDocComments)
    } else if i == 18 {
        Some(RustfmtScalarSetting::DocCommentCodeBlockWidth)
    } else if i == 19 {
        Some(RustfmtScalarSetting::CommentWidth)
    } else if i == 20 {
        Some(RustfmtScalarSetting::NormalizeComments)
    } else if i == 21 {
        Some(RustfmtScalarSetting::NormalizeDocAttributes)
    } else if i == 22 {
        Some(RustfmtScalarSetting::OverflowDelimitedExpr)
    } else if i == 23 {
        Some(RustfmtScalarSetting::FormatStrings)
    } else if i == 24 {
        Some(RustfmtScalarSetting::HexLiteralCase)
    } else if i == 25 {
        Some(RustfmtScalarSetting::FloatLiteralTrailingZero)
    } else if i == 26 {
        Some(RustfmtScalarSetting::FormatMacroBodies)
    } else if i == 27 {
        Some(RustfmtScalarSetting::FormatMacroMatchers)
    } else if i == 28 {
        Some(RustfmtScalarSetting::Color)
    } else if i == 29 {
        Some(RustfmtScalarSetting::ReorderImports)
    } else if i == 30 {
        Some(RustfmtScalarSetting::ReorderModules)
    } else if i == 31 {
        Some(RustfmtScalarSetting::GroupImports)
    } else if i == 32 {
        Some(RustfmtScalarSetting::ImportsGranularity)
    } else if i == 33 {
        Some(RustfmtScalarSetting::ImportsIndent)
    } else if i == 34 {
        Some(RustfmtScalarSetting::ImportsLayout)
    } else if i == 35 {
        Some(RustfmtScalarSetting::MergeImports)
    } else if i == 36 {
        Some(RustfmtScalarSetting::ReorderImplItems)
    } else if i == 37 {
        Some(RustfmtScalarSetting::EmptyItemSingleLine)
    } else if i == 38 {
        Some(RustfmtScalarSetting::StructLitSingleLine)
    } else if i == 39 {
        Some(RustfmtScalarSetting::FnSingleLine)
    } else if i == 40 {
        Some(RustfmtScalarSetting::WhereSingleLine)
    } else if i == 41 {
        Some(RustfmtScalarSetting::SpaceBeforeColon)
    } else if i == 42 {
        Some(RustfmtScalarSetting::SpaceAfterColon)
    } else if i == 43 {
        Some(RustfmtScalarSetting::SpacesAroundRanges)
    } else if i == 44 {
        Some(RustfmtScalarSetting::TypePunctuationDensity)
    } else if i == 45 {
        Some(RustfmtScalarSetting::BinopSeparator)
    } else if i == 46 {
        Some(RustfmtScalarSetting::BraceStyle)
    } else if i == 47 {
        Some(RustfmtScalarSetting::ControlBraceStyle)
    } else if i == 48 {
        Some(RustfmtScalarSetting::MatchArmBlocks)
    } else if i == 49 {
        Some(RustfmtScalarSetting::MatchArmLeadingPipes)
    } else if i == 50 {
        Some(RustfmtScalarSetting::MatchArmIndent)
    } else if i == 51 {
        Some(RustfmtScalarSetting::MatchBlockTrailingComma)
    } else if i == 52 {
        Some(RustfmtScalarSetting::ForceMultilineBlocks)
    } else if i == 53 {
        Some(RustfmtScalarSetting::FnArgsLayout)
    } else if i == 54 {
        Some(RustfmtScalarSetting::FnParamsLayout)
    } else if i == 55 {
        Some(RustfmtScalarSetting::MergeDerives)
    } else if i == 56 {
        Some(RustfmtScalarSetting::UseTryShorthand)
    } else if i == 57 {
        Some(RustfmtScalarSetting::UseFieldInitShorthand)
    } else if i == 58 {
        Some(RustfmtScalarSetting::RemoveNestedParens)
    } else if i == 59 {
        Some(RustfmtScalarSetting::CondenseWildcardSuffixes)
    } else if i == 60 {
        Some(RustfmtScalarSetting::ForceExplicitAbi)
    } else if i == 61 {
        Some(RustfmtScalarSetting::TrailingSemicolon)
    } else if i == 62 {
        Some(RustfmtScalarSetting::TrailingComma)
    } else if i == 63 {
        Some(RustfmtScalarSetting::CombineControlExpr)
    } else if i == 64 {
        Some(RustfmtScalarSetting::ShortArrayElementWidthThreshold)
    } else if i == 65 {
        Some(RustfmtScalarSetting::StructFieldAlignThreshold)
    } else if i == 66 {
        Some(RustfmtScalarSetting::EnumDiscrimAlignThreshold)
    } else if i == 67 {
        Some(RustfmtScalarSetting::InlineAttributeWidth)
    } else if i == 68 {
        Some(RustfmtScalarSetting::FormatGeneratedFiles)
    } else if i == 69 {
        Some(RustfmtScalarSetting::GeneratedMarkerLineSearchLimit)
    } else if i == 70 {
        Some(RustfmtScalarSetting::Edition)
    } else if i == 71 {
        Some(RustfmtScalarSetting::StyleEdition)
    } else if i == 72 {
        Some(RustfmtScalarSetting::Version)
    } else if i == 73 {
        Some(RustfmtScalarSetting::RequiredVersion)
    } else if i == 74 {
        Some(RustfmtScalarSetting::EmitMode)
    } else if i == 75 {
        Some(RustfmtScalarSetting::MakeBackup)
    } else if i == 76 {
        Some(RustfmtScalarSetting::PrintMisformattedFileNames)
    } else if i == 77 {
        Some(RustfmtScalarSetting::UnstableFeatures)
    } else if i == 78 {
        Some(RustfmtScalarSetting::DisableAllFormatting)
    } else if i == 79 {
        Some(RustfmtScalarSetting::SkipChildren)
    } else if i == 80 {
        Some(RustfmtScalarSetting::ErrorOnLineOverflow)
    } else if i == 81 {
        Some(RustfmtScalarSetting::ErrorOnUnformatted)
    } else if i == 82 {
        Some(RustfmtScalarSetting::HideParseErrors)
    } else if i == 83 {
        Some(RustfmtScalarSetting::ShowParseErrors)
    } else {
        None
    }
}

/// How many scalar settings there are.
pub const SCALAR_SETTING_COUNT: usize = 84;



/// Every scalar setting's key in `rustfmt.toml` is non-empty snake case:
/// lowercase ASCII letters and underscores.
pub proof fn law_scalar_key_is_snake_case(a: RustfmtScalarSetting)
    ensures
        a.spec_file_key().len() > 0,
        forall|i: int| 0 <= i < a.spec_file_key().len() ==> {
            let c = #[trigger] a.spec_file_key()[i];
            ('a' <= c && c <= 'z') || c == '_'
        },
{
        reveal_strlit("max_width");
        reveal_strlit("hard_tabs");
        reveal_strlit("tab_spaces");
        reveal_strlit("newline_style");
        reveal_strlit("indent_style");
        reveal_strlit("use_small_heuristics");
        reveal_strlit("fn_call_width");
        reveal_strlit("attr_fn_like_width");
        reveal_strlit("blank_lines_lower_bound");
        reveal_strlit("blank_lines_upper_bound");
        reveal_strlit("struct_lit_width");
        reveal_strlit("struct_variant_width");
        reveal_strlit("array_width");
        reveal_strlit("chain_width");
        reveal_strlit("single_line_if_else_max_width");
        reveal_strlit("single_line_let_else_max_width");
        reveal_strlit("wrap_comments");
        reveal_strlit("format_code_in_doc_comments");
        reveal_strlit("doc_comment_code_block_width");
        reveal_strlit("comment_width");
        reveal_strlit("normalize_comments");
        reveal_strlit("normalize_doc_attributes");
        reveal_strlit("overflow_delimited_expr");
        reveal_strlit("format_strings");
        reveal_strlit("hex_literal_case");
        reveal_strlit("float_literal_trailing_zero");
        reveal_strlit("format_macro_bodies");
        reveal_strlit("format_macro_matchers");
        reveal_strlit("color");
        reveal_strlit("reorder_imports");
        reveal_strlit("reorder_modules");
        reveal_strlit("group_imports");
        reveal_strlit("imports_granularity");
        reveal_strlit("imports_indent");
        reveal_strlit("imports_layout");
        reveal_strlit("merge_imports");
        reveal_strlit("reorder_impl_items");
        reveal_strlit("empty_item_single_line");
        reveal_strlit("struct_lit_single_line");
        reveal_strlit("fn_single_line");
        reveal_strlit("where_single_line");
        reveal_strlit("space_before_colon");
        reveal_strlit("space_after_colon");
        reveal_strlit("spaces_around_ranges");
        reveal_strlit("type_punctuation_density");
        reveal_strlit("binop_separator");
        reveal_strlit("brace_style");
        reveal_strlit("control_brace_style");
        reveal_strlit("match_arm_blocks");
        reveal_strlit("match_arm_leading_pipes");
        reveal_strlit("match_arm_indent");
        reveal_strlit("match_block_trailing_comma");
        reveal_strlit("force_multiline_blocks");
        reveal_strlit("fn_args_layout");
        reveal_strlit("fn_params_layout");
        reveal_strlit("merge_derives");
        reveal_strlit("use_try_shorthand");
        reveal_strlit("use_field_init_shorthand");
        reveal_strlit("remove_nested_parens");
        reveal_strlit("condense_wildcard_suffixes");
        reveal_strlit("force_explicit_abi");
        reveal_strlit("trailing_semicolon");
        reveal_strlit("trailing_comma");
        reveal_strlit("combine_control_expr");
        reveal_strlit("short_array_element_width_threshold");
        reveal_strlit("struct_field_align_threshold");
        reveal_strlit("enum_discrim_align_threshold");
        reveal_strlit("inline_attribute_width");
        reveal_strlit("format_generated_files");
        reveal_strlit("generated_marker_line_search_limit");
        reveal_strlit("edition");
        reveal_strlit("style_edition");
        reveal_strlit("version");
        reveal_strlit("required_version");
        reveal_strlit("emit_mode");
        reveal_strlit("make_backup");
        reveal_strlit("print_misformatted_file_names");
        reveal_strlit("unstable_features");
        reveal_strlit("disable_all_formatting");
        reveal_strlit("skip_children");
        reveal_strlit("error_on_line_overflow");
        reveal_strlit("error_on_unformatted");
        reveal_strlit("hide_parse_errors");
        reveal_strlit("show_parse_errors");
}

/// A few characters of a key (its length, first five, last five and
/// thirteenth), which tell the scalar settings' keys apart.
pub type KeySignature = (int, char, char, char, char, char, char, char, char, char, char, char);

pub open spec fn key_signature(s: Seq<char>) -> KeySignature {
    let n = s.len() as int;
    (n, s[0], s[1], s[2], s[3], s[4], s[n - 1], s[n - 2], s[n - 3], s[n - 4], s[n - 5], s[12])
}

/// The position of the scalar setting whose key has signature `t`.
pub open spec fn key_position(t: KeySignature) -> int {
    if t.0 == 9 && t.1 == 'm' && t.2 == 'a' && t.3 == 'x' && t.4 == '_' && t.5 == 'w' && t.6 == 'h' && t.7 == 't' && t.8 == 'd' && t.9 == 'i' && t.10 == 'w' {
        0
    } else if t.0 == 9 && t.1 == 'h' && t.2 == 'a' && t.3 == 'r' && t.4 == 'd' && t.5 == '_' && t.6 == 's' && t.7 == 'b' && t.8 == 'a' && t.9 == 't' && t.10 == '_' {
        1
    } else if t.0 == 10 && t.1 == 't' && t.2 == 'a' && t.3 == 'b' && t.4 == '_' && t.5 == 's' && t.6 == 's' && t.7 == 'e' && t.8 == 'c' && t.9 == 'a' && t.10 == 'p' {
        2
    } else if t.0 == 13 && t.1 == 'n' && t.2 == 'e' && t.3 == 'w' && t.4 == 'l' && t.5 == 'i' && t.6 == 'e' && t.7 == 'l' && t.8 == 'y' && t.9 == 't' && t.10 == 's' {
        3
    } else if t.0 == 12 && t.1 == 'i' && t.2 == 'n' && t.3 == 'd' && t.4 == 'e' && t.5 == 'n' && t.6 == 'e' && t.7 == 'l' && t.8 == 'y' && t.9 == 't' && t.10 == 's' {
        4
    } else if t.0 == 20 && t.1 == 'u' && t.2 == 's' && t.3 == 'e' && t.4 == '_' && t.5 == 's' && t.6 == 's' && t.7 == 'c' && t.8 == 'i' && t.9 == 't' && t.10 == 's' {
        5
    } else if t.0 == 13 && t.1 == 'f' && t.2 == 'n' && t.3 == '_' && t.4 == 'c' && t.5 == 'a' && t.6 == 'h' && t.7 == 't' && t.8 == 'd' && t.9 == 'i' && t.10 == 'w' {
        6
    } else if t.0 == 18 && t.1 == 'a' && t.2 == 't' && t.3 == 't' && t.4 == 'r' && t.5 == '_' && t.6 == 'h' && t.7 == 't' && t.8 == 'd' && t.9 == 'i' && t.10 == 'w' {
        7
    } else if t.0 == 23 && t.1 == 'b' && t.2 == 'l' && t.3 == 'a' && t.4 == 'n' && t.5 == 'k' && t.6 == 'd' && t.7 == 'n' && t.8 == 'u' && t.9 == 'o' && t.10 == 'b' && t.11 == 'l' {
        8
    } else if t.0 == 23 && t.1 == 'b' && t.2 == 'l' && t.3 == 'a' && t.4 == 'n' && t.5 == 'k' && t.6 == 'd' && t.7 == 'n' && t.8 == 'u' && t.9 == 'o' && t.10 == 'b' && t.11 == 'u' {
        9
    } else if t.0 == 16 && t.1 == 's' && t.2 == 't' && t.3 == 'r' && t.4 == 'u' && t.5 == 'c' && t.6 == 'h' && t.7 == 't' && t.8 == 'd' && t.9 == 'i' && t.10 == 'w' {
        10
    } else if t.0 == 20 && t.1 == 's' && t.2 == 't' && t.3 == 'r' && t.4 == 'u' && t.5 == 'c' && t.6 == 'h' && t.7 == 't' && t.8 == 'd' && t.9 == 'i' && t.10 == 'w' {
        11
    } else if t.0 == 11 && t.1 == 'a' && t.2 == 'r' && t.3 == 'r' && t.4 == 'a' && t.5 == 'y' && t.6 == 'h' && t.7 == 't' && t.8 == 'd' && t.9 == 'i' && t.10 == 'w' {
        12
    } else if t.0 == 11 && t.1 == 'c' && t.2 == 'h' && t.3 == 'a' && t.4 == 'i' && t.5 == 'n' && t.6 == 'h' && t.7 == 't' && t.8 == 'd' && t.9 == 'i' && t.10 == 'w' {
        13
    } else if t.0 == 29 && t.1 == 's' && t.2 == 'i' && t.3 == 'n' && t.4 == 'g' && t.5 == 'l' && t.6 == 'h' && t.7 == 't' && t.8 == 'd' && t.9 == 'i' && t.10 == 'w' {
        14
    } else if t.0 == 30 && t.1 == 's' && t.2 == 'i' && t.3 == 'n' && t.4 == 'g' && t.5 == 'l' && t.6 == 'h' && t.7 == 't' && t.8 == 'd' && t.9 == 'i' && t.10 == 'w' {
        15
    } else if t.0 == 13 && t.1 == 'w' && t.2 == 'r' && t.3 == 'a' && t.4 == 'p' && t.5 == '_' && t.6 == 's' && t.7 == 't' && t.8 == 'n' && t.9 == 'e' && t.10 == 'm' {
        16
    } else if t.0 == 27 && t.1 == 'f' && t.2 == 'o' && t.3 == 'r' && t.4 == 'm' && t.5 == 'a' && t.6 == 's' && t.7 == 't' && t.8 == 'n' && t.9 == 'e' && t.10 == 'm' {
        17
    } else if t.0 == 28 && t.1 == 'd' && t.2 == 'o' && t.3 == 'c' && t.4 == '_' && t.5 == 'c' && t.6 == 'h' && t.7 == 't' && t.8 == 'd' && t.9 == 'i' && t.10 == 'w' {
        18
    } else if t.0 == 13 && t.1 == 'c' && t.2 == 'o' && t.3 == 'm' && t.4 == 'm' && t.5 == 'e' && t.6 == 'h' && t.7 == 't' && t.8 == 'd' && t.9 == 'i' && t.10 == 'w' {
        19
    } else if t.0 == 18 && t.1 == 'n' && t.2 == 'o' && t.3 == 'r' && t.4 == 'm' && t.5 == 'a' && t.6 == 's' && t.7 == 't' && t.8 == 'n' && t.9 == 'e' && t.10 == 'm' {
        20
    } else if t.0 == 24 && t.1 == 'n' && t.2 == 'o' && t.3 == 'r' && t.4 == 'm' && t.5 == 'a' && t.6 == 's' && t.7 == 'e' && t.8 == 't' && t.9 == 'u' && t.10 == 'b' {
        21
    } else if t.0 == 23 && t.1 == 'o' && t.2 == 'v' && t.3 == 'e' && t.4 == 'r' && t.5 == 'f' && t.6 == 'r' && t.7 == 'p' && t.8 == 'x' && t.9 == 'e' && t.10 == '_' {
        22
    } else if t.0 == 14 && t.1 == 'f' && t.2 == 'o' && t.3 == 'r' && t.4 == 'm' && t.5 == 'a' && t.6 == 's' && t.7 == 'g' && t.8 == 'n' && t.9 == 'i' && t.10 == 'r' {
        23
    } else if t.0 == 16 && t.1 == 'h' && t.2 == 'e' && t.3 == 'x' && t.4 == '_' && t.5 == 'l' && t.6 == 'e' && t.7 == 's' && t.8 == 'a' && t.9 == 'c' && t.10 == '_' {
        24
    } else if t.0 == 27 && t.1 == 'f' && t.2 == 'l' && t.3 == 'o' && t.4 == 'a' && t.5 == 't' && t.6 == 'o' && t.7 == 'r' && t.8 == 'e' && t.9 == 'z' && t.10 == '_' {
        25
    } else if t.0 == 19 && t.1 == 'f' && t.2 == 'o' && t.3 == 'r' && t.4 == 'm' && t.5 == 'a' && t.6 == 's' && t.7 == 'e' && t.8 == 'i' && t.9 == 'd' && t.10 == 'o' {
        26
    } else if t.0 == 21 && t.1 == 'f' && t.2 == 'o' && t.3 == 'r' && t.4 == 'm' && t.5 == 'a' && t.6 == 's' && t.7 == 'r' && t.8 == 'e' && t.9 == 'h' && t.10 == 'c' {
        27
    } else if t.0 == 5 && t.1 == 'c' && t.2 == 'o' && t.3 == 'l' && t.4 == 'o' && t.5 == 'r' && t.6 == 'r' && t.7 == 'o' && t.8 == 'l' && t.9 == 'o' && t.10 == 'c' {
        28
    } else if t.0 == 15 && t.1 == 'r' && t.2 == 'e' && t.3 == 'o' && t.4 == 'r' && t.5 == 'd' && t.6 == 's' && t.7 == 't' && t.8 == 'r' && t.9 == 'o' && t.10 == 'p' {
        29
    } else if t.0 == 15 && t.1 == 'r' && t.2 == 'e' && t.3 == 'o' && t.4 == 'r' && t.5 == 'd' && t.6 == 's' && t.7 == 'e' && t.8 == 'l' && t.9 == 'u' && t.10 == 'd' {
        30
    } else if t.0 == 13 && t.1 == 'g' && t.2 == 'r' && t.3 == 'o' && t.4 == 'u' && t.5 == 'p' && t.6 == 's' && t.7 == 't' && t.8 == 'r' && t.9 == 'o' && t.10 == 'p' {
        31
    } else if t.0 == 19 && t.1 == 'i' && t.2 == 'm' && t.3 == 'p' && t.4 == 'o' && t.5 == 'r' && t.6 == 'y' && t.7 == 't' && t.8 == 'i' && t.9 == 'r' && t.10 == 'a' {
        32
    } else if t.0 == 14 && t.1 == 'i' && t.2 == 'm' && t.3 == 'p' && t.4 == 'o' && t.5 == 'r' && t.6 == 't' && t.7 == 'n' && t.8 == 'e' && t.9 == 'd' && t.10 == 'n' {
        33
    } else if t.0 == 14 && t.1 == 'i' && t.2 == 'm' && t.3 == 'p' && t.4 == 'o' && t.5 == 'r' && t.6 == 't' && t.7 == 'u' && t.8 == 'o' && t.9 == 'y' && t.10 == 'a' {
        34
    } else if t.0 == 13 && t.1 == 'm' && t.2 == 'e' && t.3 == 'r' && t.4 == 'g' && t.5 == 'e' && t.6 == 's' && t.7 == 't' && t.8 == 'r' && t.9 == 'o' && t.10 == 'p' {
        35
    } else if t.0 == 18 && t.1 == 'r' && t.2 == 'e' && t.3 == 'o' && t.4 == 'r' && t.5 == 'd' && t.6 == 's' && t.7 == 'm' && t.8 == 'e' && t.9 == 't' && t.10 == 'i' {
        36
    } else if t.0 == 22 && t.1 == 'e' && t.2 == 'm' && t.3 == 'p' && t.4 == 't' && t.5 == 'y' && t.6 == 'e' && t.7 == 'n' && t.8 == 'i' && t.9 == 'l' && t.10 == '_' {
        37
    } else if t.0 == 22 && t.1 == 's' && t.2 == 't' && t.3 == 'r' && t.4 == 'u' && t.5 == 'c' && t.6 == 'e' && t.7 == 'n' && t.8 == 'i' && t.9 == 'l' && t.10 == '_' {
        38
    } else if t.0 == 14 && t.1 == 'f' && t.2 == 'n' && t.3 == '_' && t.4 == 's' && t.5 == 'i' && t.6 == 'e' && t.7 == 'n' && t.8 == 'i' && t.9 == 'l' && t.10 == '_' {
        39
    } else if t.0 == 17 && t.1 == 'w' && t.2 == 'h' && t.3 == 'e' && t.4 == 'r' && t.5 == 'e' && t.6 == 'e' && t.7 == 'n' && t.8 == 'i' && t.9 == 'l' && t.10 == '_' {
        40
    } else if t.0 == 18 && t.1 == 's' && t.2 == 'p' && t.3 == 'a' && t.4 == 'c' && t.5 == 'e' && t.6 == 'n' && t.7 == 'o' && t.8 == 'l' && t.9 == 'o' && t.10 == 'c' {
        41
    } else if t.0 == 17 && t.1 == 's' && t.2 == 'p' && t.3 == 'a' && t.4 == 'c' && t.5 == 'e' && t.6 == 'n' && t.7 == 'o' && t.8 == 'l' && t.9 == 'o' && t.10 == 'c' {
        42
    } else if t.0 == 20 && t.1 == 's' && t.2 == 'p' && t.3 == 'a' && t.4 == 'c' && t.5 == 'e' && t.6 == 's' && t.7 == 'e' && t.8 == 'g' && t.9 == 'n' && t.10 == 'a' {
        43
    } else if t.0 == 24 && t.1 == 't' && t.2 == 'y' && t.3 == 'p' && t.4 == 'e' && t.5 == '_' && t.6 == 'y' && t.7 == 't' && t.8 == 'i' && t.9 == 's' && t.10 == 'n' {
        44
    } else if t.0 == 15 && t.1 == 'b' && t.2 == 'i' && t.3 == 'n' && t.4 == 'o' && t.5 == 'p' && t.6 == 'r' && t.7 == 'o' && t.8 == 't' && t.9 == 'a' && t.10 == 'r' {
        45
    } else if t.0 == 11 && t.1 == 'b' && t.2 == 'r' && t.3 == 'a' && t.4 == 'c' && t.5 == 'e' && t.6 == 'e' && t.7 == 'l' && t.8 == 'y' && t.9 == 't' && t.10 == 's' {
        46
    } else if t.0 == 19 && t.1 == 'c' && t.2 == 'o' && t.3 == 'n' && t.4 == 't' && t.5 == 'r' && t.6 == 'e' && t.7 == 'l' && t.8 == 'y' && t.9 == 't' && t.10 == 's' {
        47
    } else if t.0 == 16 && t.1 == 'm' && t.2 == 'a' && t.3 == 't' && t.4 == 'c' && t.5 == 'h' && t.6 == 's' && t.7 == 'k' && t.8 == 'c' && t.9 == 'o' && t.10 == 'l' {
        48
    } else if t.0 == 23 && t.1 == 'm' && t.2 == 'a' && t.3 == 't' && t.4 == 'c' && t.5 == 'h' && t.6 == 's' && t.7 == 'e' && t.8 == 'p' && t.9 == 'i' && t.10 == 'p' {
        49
    } else if t.0 == 16 && t.1 == 'm' && t.2 == 'a' && t.3 == 't' && t.4 == 'c' && t.5 == 'h' && t.6 == 't' && t.7 == 'n' && t.8 == 'e' && t.9 == 'd' && t.10 == 'n' {
        50
    } else if t.0 == 26 && t.1 == 'm' && t.2 == 'a' && t.3 == 't' && t.4 == 'c' && t.5 == 'h' && t.6 == 'a' && t.7 == 'm' && t.8 == 'm' && t.9 == 'o' && t.10 == 'c' {
        51
    } else if t.0 == 22 && t.1 == 'f' && t.2 == 'o' && t.3 == 'r' && t.4 == 'c' && t.5 == 'e' && t.6 == 's' && t.7 == 'k' && t.8 == 'c' && t.9 == 'o' && t.10 == 'l' {
        52
    } else if t.0 == 14 && t.1 == 'f' && t.2 == 'n' && t.3 == '_' && t.4 == 'a' && t.5 == 'r' && t.6 == 't' && t.7 == 'u' && t.8 == 'o' && t.9 == 'y' && t.10 == 'a' {
        53
    } else if t.0 == 16 && t.1 == 'f' && t.2 == 'n' && t.3 == '_' && t.4 == 'p' && t.5 == 'a' && t.6 == 't' && t.7 == 'u' && t.8 == 'o' && t.9 == 'y' && t.10 == 'a' {
        54
    } else if t.0 == 13 && t.1 == 'm' && t.2 == 'e' && t.3 == 'r' && t.4 == 'g' && t.5 == 'e' && t.6 == 's' && t.7 == 'e' && t.8 == 'v' && t.9 == 'i' && t.10 == 'r' {
        55
    } else if t.0 == 17 && t.1 == 'u' && t.2 == 's' && t.3 == 'e' && t.4 == '_' && t.5 == 't' && t.6 == 'd' && t.7 == 'n' && t.8 == 'a' && t.9 == 'h' && t.10 == 't' {
        56
    } else if t.0 == 24 && t.1 == 'u' && t.2 == 's' && t.3 == 'e' && t.4 == '_' && t.5 == 'f' && t.6 == 'd' && t.7 == 'n' && t.8 == 'a' && t.9 == 'h' && t.10 == 't' {
        57
    } else if t.0 == 20 && t.1 == 'r' && t.2 == 'e' && t.3 == 'm' && t.4 == 'o' && t.5 == 'v' && t.6 == 's' && t.7 == 'n' && t.8 == 'e' && t.9 == 'r' && t.10 == 'a' {
        58
    } else if t.0 == 26 && t.1 == 'c' && t.2 == 'o' && t.3 == 'n' && t.4 == 'd' && t.5 == 'e' && t.6 == 's' && t.7 == 'e' && t.8 == 'x' && t.9 == 'i' && t.10 == 'f' {
        59
    } else if t.0 == 18 && t.1 == 'f' && t.2 == 'o' && t.3 == 'r' && t.4 == 'c' && t.5 == 'e' && t.6 == 'i' && t.7 == 'b' && t.8 == 'a' && t.9 == '_' && t.10 == 't' {
        60
    } else if t.0 == 18 && t.1 == 't' && t.2 == 'r' && t.3 == 'a' && t.4 == 'i' && t.5 == 'l' && t.6 == 'n' && t.7 == 'o' && t.8 == 'l' && t.9 == 'o' && t.10 == 'c' {
        61
    } else if t.0 == 14 && t.1 == 't' && t.2 == 'r' && t.3 == 'a' && t.4 == 'i' && t.5 == 'l' && t.6 == 'a' && t.7 == 'm' && t.8 == 'm' && t.9 == 'o' && t.10 == 'c' {
        62
    } else if t.0 == 20 && t.1 == 'c' && t.2 == 'o' && t.3 == 'm' && t.4 == 'b' && t.5 == 'i' && t.6 == 'r' && t.7 == 'p' && t.8 == 'x' && t.9 == 'e' && t.10 == '_' {
        63
    } else if t.0 == 35 && t.1 == 's' && t.2 == 'h' && t.3 == 'o' && t.4 == 'r' && t.5 == 't' && t.6 == 'd' && t.7 == 'l' && t.8 == 'o' && t.9 == 'h' && t.10 == 's' {
        64
    } else if t.0 == 28 && t.1 == 's' && t.2 == 't' && t.3 == 'r' && t.4 == 'u' && t.5 == 'c' && t.6 == 'd' && t.7 == 'l' && t.8 == 'o' && t.9 == 'h' && t.10 == 's' {
        65
    } else if t.0 == 28 && t.1 == 'e' && t.2 == 'n' && t.3 == 'u' && t.4 == 'm' && t.5 == '_' && t.6 == 'd' && t.7 == 'l' && t.8 == 'o' && t.9 == 'h' && t.10 == 's' {
        66
    } else if t.0 == 22 && t.1 == 'i' && t.2 == 'n' && t.3 == 'l' && t.4 == 'i' && t.5 == 'n' && t.6 == 'h' && t.7 == 't' && t.8 == 'd' && t.9 == 'i' && t.10 == 'w' {
        67
    } else if t.0 == 22 && t.1 == 'f' && t.2 == 'o' && t.3 == 'r' && t.4 == 'm' && t.5 == 'a' && t.6 == 's' && t.7 == 'e' && t.8 == 'l' && t.9 == 'i' && t.10 == 'f' {
        68
    } else if t.0 == 34 && t.1 == 'g' && t.2 == 'e' && t.3 == 'n' && t.4 == 'e' && t.5 == 'r' && t.6 == 't' && t.7 == 'i' && t.8 == 'm' && t.9 == 'i' && t.10 == 'l' {
        69
    } else if t.0 == 7 && t.1 == 'e' && t.2 == 'd' && t.3 == 'i' && t.4 == 't' && t.5 == 'i' && t.6 == 'n' && t.7 == 'o' && t.8 == 'i' && t.9 == 't' && t.10 == 'i' {
        70
    } else if t.0 == 13 && t.1 == 's' && t.2 == 't' && t.3 == 'y' && t.4 == 'l' && t.5 == 'e' && t.6 == 'n' && t.7 == 'o' && t.8 == 'i' && t.9 == 't' && t.10 == 'i' {
        71
    } else if t.0 == 7 && t.1 == 'v' && t.2 == 'e' && t.3 == 'r' && t.4 == 's' && t.5 == 'i' && t.6 == 'n' && t.7 == 'o' && t.8 == 'i' && t.9 == 's' && t.10 == 'r' {
        72
    } else if t.0 == 16 && t.1 == 'r' && t.2 == 'e' && t.3 == 'q' && t.4 == 'u' && t.5 == 'i' && t.6 == 'n' && t.7 == 'o' && t.8 == 'i' && t.9 == 's' && t.10 == 'r' {
        73
    } else if t.0 == 9 && t.1 == 'e' && t.2 == 'm' && t.3 == 'i' && t.4 == 't' && t.5 == '_' && t.6 == 'e' && t.7 == 'd' && t.8 == 'o' && t.9 == 'm' && t.10 == '_' {
        74
    } else if t.0 == 11 && t.1 == 'm' && t.2 == 'a' && t.3 == 'k' && t.4 == 'e' && t.5 == '_' && t.6 == 'p' && t.7 == 'u' && t.8 == 'k' && t.9 == 'c' && t.10 == 'a' {
        75
    } else if t.0 == 29 && t.1 == 'p' && t.2 == 'r' && t.3 == 'i' && t.4 == 'n' && t.5 == 't' && t.6 == 's' && t.7 == 'e' && t.8 == 'm' && t.9 == 'a' && t.10 == 'n' {
        76
    } else if t.0 == 17 && t.1 == 'u' && t.2 == 'n' && t.3 == 's' && t.4 == 't' && t.5 == 'a' && t.6 == 's' && t.7 == 'e' && t.8 == 'r' && t.9 == 'u' && t.10 == 't' {
        77
    } else if t.0 == 22 && t.1 == 'd' && t.2 == 'i' && t.3 == 's' && t.4 == 'a' && t.5 == 'b' && t.6 == 'g' && t.7 == 'n' && t.8 == 'i' && t.9 == 't' && t.10 == 't' {
        78
    } else if t.0 == 13 && t.1 == 's' && t.2 == 'k' && t.3 == 'i' && t.4 == 'p' && t.5 == '_' && t.6 == 'n' && t.7 == 'e' && t.8 == 'r' && t.9 == 'd' && t.10 == 'l' {
        79
    } else if t.0 == 22 && t.1 == 'e' && t.2 == 'r' && t.3 == 'r' && t.4 == 'o' && t.5 == 'r' && t.6 == 'w' && t.7 == 'o' && t.8 == 'l' && t.9 == 'f' && t.10 == 'r' {
        80
    } else if t.0 == 20 && t.1 == 'e' && t.2 == 'r' && t.3 == 'r' && t.4 == 'o' && t.5 == 'r' && t.6 == 'd' && t.7 == 'e' && t.8 == 't' && t.9 == 't' && t.10 == 'a' {
        81
    } else if t.0 == 17 && t.1 == 'h' && t.2 == 'i' && t.3 == 'd' && t.4 == 'e' && t.5 == '_' && t.6 == 's' && t.7 == 'r' && t.8 == 'o' && t.9 == 'r' && t.10 == 'r' {
        82
    } else if t.0 == 17 && t.1 == 's' && t.2 == 'h' && t.3 == 'o' && t.4 == 'w' && t.5 == '_' && t.6 == 's' && t.7 == 'r' && t.8 == 'o' && t.9 == 'r' && t.10 == 'r' {
        83
    } else {
        -1
    }
}

/// The position of a scalar setting in the declaration order.
pub open spec fn setting_position(a: RustfmtScalarSetting) -> int {
    match a {
        RustfmtScalarSetting::MaxWidth => 0,
        RustfmtScalarSetting::HardTabs => 1,
        RustfmtScalarSetting::TabSpaces => 2,
        RustfmtScalarSetting::NewlineStyle => 3,
        RustfmtScalarSetting::IndentStyle => 4,
        RustfmtScalarSetting::UseSmallHeuristics => 5,
        RustfmtScalarSetting::FnCallWidth => 6,
        RustfmtScalarSetting::AttrFnLikeWidth => 7,
        RustfmtScalarSetting::BlankLinesLowerBound => 8,
        RustfmtScalarSetting::BlankLinesUpperBound => 9,
        RustfmtScalarSetting::StructLitWidth => 10,
        RustfmtScalarSetting::StructVariantWidth => 11,
        RustfmtScalarSetting::ArrayWidth => 12,
        RustfmtScalarSetting::ChainWidth => 13,
        RustfmtScalarSetting::SingleLineIfElseMaxWidth => 14,
        RustfmtScalarSetting::SingleLineLetElseMaxWidth => 15,
        RustfmtScalarSetting::WrapComments => 16,
        RustfmtScalarSetting::FormatCodeInDocComments => 17,
        RustfmtScalarSetting::DocCommentCodeBlockWidth => 18,
        RustfmtScalarSetting::CommentWidth => 19,
        RustfmtScalarSetting::NormalizeComments => 20,
        RustfmtScalarSetting::NormalizeDocAttributes => 21,
        RustfmtScalarSetting::OverflowDelimitedExpr => 22,
        RustfmtScalarSetting::FormatStrings => 23,
        RustfmtScalarSetting::HexLiteralCase => 24,
        RustfmtScalarSetting::FloatLiteralTrailingZero => 25,
        RustfmtScalarSetting::FormatMacroBodies => 26,
        RustfmtScalarSetting::FormatMacroMatchers => 27,
        RustfmtScalarSetting::Color => 28,
        RustfmtScalarSetting::ReorderImports => 29,
        RustfmtScalarSetting::ReorderModules => 30,
        RustfmtScalarSetting::GroupImports => 31,
        RustfmtScalarSetting::ImportsGranularity => 32,
        RustfmtScalarSetting::ImportsIndent => 33,
        RustfmtScalarSetting::ImportsLayout => 34,
        RustfmtScalarSetting::MergeImports => 35,
        RustfmtScalarSetting::ReorderImplItems => 36,
        RustfmtScalarSetting::EmptyItemSingleLine => 37,
        RustfmtScalarSetting::StructLitSingleLine => 38,
        RustfmtScalarSetting::FnSingleLine => 39,
        RustfmtScalarSetting::WhereSingleLine => 40,
        RustfmtScalarSetting::SpaceBeforeColon => 41,
        RustfmtScalarSetting::SpaceAfterColon => 42,
        RustfmtScalarSetting::SpacesAroundRanges => 43,
        RustfmtScalarSetting::TypePunctuationDensity => 44,
        RustfmtScalarSetting::BinopSeparator => 45,
        RustfmtScalarSetting::BraceStyle => 46,
        RustfmtScalarSetting::ControlBraceStyle => 47,
        RustfmtScalarSetting::MatchArmBlocks => 48,
        RustfmtScalarSetting::MatchArmLeadingPipes => 49,
        RustfmtScalarSetting::MatchArmIndent => 50,
        RustfmtScalarSetting::MatchBlockTrailingComma => 51,
        RustfmtScalarSetting::ForceMultilineBlocks => 52,
        RustfmtScalarSetting::FnArgsLayout => 53,
        RustfmtScalarSetting::FnParamsLayout => 54,
        RustfmtScalarSetting::MergeDerives => 55,
        RustfmtScalarSetting::UseTryShorthand => 56,
        RustfmtScalarSetting::UseFieldInitShorthand => 57,
        RustfmtScalarSetting::RemoveNestedParens => 58,
        RustfmtScalarSetting::CondenseWildcardSuffixes => 59,
        RustfmtScalarSetting::ForceExplicitAbi => 60,
        RustfmtScalarSetting::TrailingSemicolon => 61,
        RustfmtScalarSetting::TrailingComma => 62,
        RustfmtScalarSetting::CombineControlExpr => 63,
        RustfmtScalarSetting::ShortArrayElementWidthThreshold => 64,
        RustfmtScalarSetting::StructFieldAlignThreshold => 65,
        RustfmtScalarSetting::EnumDiscrimAlignThreshold => 66,
        RustfmtScalarSetting::InlineAttributeWidth => 67,
        RustfmtScalarSetting::FormatGeneratedFiles => 68,
        RustfmtScalarSetting::GeneratedMarkerLineSearchLimit => 69,
        RustfmtScalarSetting::Edition => 70,
        RustfmtScalarSetting::StyleEdition => 71,
        RustfmtScalarSetting::Version => 72,
        RustfmtScalarSetting::RequiredVersion => 73,
        RustfmtScalarSetting::EmitMode => 74,
        RustfmtScalarSetting::MakeBackup => 75,
        RustfmtScalarSetting::PrintMisformattedFileNames => 76,
        RustfmtScalarSetting::UnstableFeatures => 77,
        RustfmtScalarSetting::DisableAllFormatting => 78,
        RustfmtScalarSetting::SkipChildren => 79,
        RustfmtScalarSetting::ErrorOnLineOverflow => 80,
        RustfmtScalarSetting::ErrorOnUnformatted => 81,
        RustfmtScalarSetting::HideParseErrors => 82,
        RustfmtScalarSetting::ShowParseErrors => 83,
    }
}

pub proof fn lemma_key_position(a: RustfmtScalarSetting)
    ensures
        0 <= setting_position(a) < SCALAR_SETTING_COUNT,
        key_position(key_signature(a.spec_file_key())) == setting_position(a),
        spec_scalar_setting_at(setting_position(a)) == Some(a),
{
    reveal_strlit("max_width");
    reveal_strlit("hard_tabs");
    reveal_strlit("tab_spaces");
    reveal_strlit("newline_style");
    reveal_strlit("indent_style");
    reveal_strlit("use_small_heuristics");
    reveal_strlit("fn_call_width");
    reveal_strlit("attr_fn_like_width");
    reveal_strlit("blank_lines_lower_bound");
    reveal_strlit("blank_lines_upper_bound");
    reveal_strlit("struct_lit_width");
    reveal_strlit("struct_variant_width");
    reveal_strlit("array_width");
    reveal_strlit("chain_width");
    reveal_strlit("single_line_if_else_max_width");
    reveal_strlit("single_line_let_else_max_width");
    reveal_strlit("wrap_comments");
    reveal_strlit("format_code_in_doc_comments");
    reveal_strlit("doc_comment_code_block_width");
    reveal_strlit("comment_width");
    reveal_strlit("normalize_comments");
    reveal_strlit("normalize_doc_attributes");
    reveal_strlit("overflow_delimited_expr");
    reveal_strlit("format_strings");
    reveal_strlit("hex_literal_case");
    reveal_strlit("float_literal_trailing_zero");
    reveal_strlit("format_macro_bodies");
    reveal_strlit("format_macro_matchers");
    reveal_strlit("color");
    reveal_strlit("reorder_imports");
    reveal_strlit("reorder_modules");
    reveal_strlit("group_imports");
    reveal_strlit("imports_granularity");
    reveal_strlit("imports_indent");
    reveal_strlit("imports_layout");
    reveal_strlit("merge_imports");
    reveal_strlit("reorder_impl_items");
    reveal_strlit("empty_item_single_line");
    reveal_strlit("struct_lit_single_line");
    reveal_strlit("fn_single_line");
    reveal_strlit("where_single_line");
    reveal_strlit("space_before_colon");
    reveal_strlit("space_after_colon");
    reveal_strlit("spaces_around_ranges");
    reveal_strlit("type_punctuation_density");
    reveal_strlit("binop_separator");
    reveal_strlit("brace_style");
    reveal_strlit("control_brace_style");
    reveal_strlit("match_arm_blocks");
    reveal_strlit("match_arm_leading_pipes");
    reveal_strlit("match_arm_indent");
    reveal_strlit("match_block_trailing_comma");
    reveal_strlit("force_multiline_blocks");
    reveal_strlit("fn_args_layout");
    reveal_strlit("fn_params_layout");
    reveal_strlit("merge_derives");
    reveal_strlit("use_try_shorthand");
    reveal_strlit("use_field_init_shorthand");
    reveal_strlit("remove_nested_parens");
    reveal_strlit("condense_wildcard_suffixes");
    reveal_strlit("force_explicit_abi");
    reveal_strlit("trailing_semicolon");
    reveal_strlit("trailing_comma");
    reveal_strlit("combine_control_expr");
    reveal_strlit("short_array_element_width_threshold");
    reveal_strlit("struct_field_align_threshold");
    reveal_strlit("enum_discrim_align_threshold");
    reveal_strlit("inline_attribute_width");
    reveal_strlit("format_generated_files");
    reveal_strlit("generated_marker_line_search_limit");
    reveal_strlit("edition");
    reveal_strlit("style_edition");
    reveal_strlit("version");
    reveal_strlit("required_version");
    reveal_strlit("emit_mode");
    reveal_strlit("make_backup");
    reveal_strlit("print_misformatted_file_names");
    reveal_strlit("unstable_features");
    reveal_strlit("disable_all_formatting");
    reveal_strlit("skip_children");
    reveal_strlit("error_on_line_overflow");
    reveal_strlit("error_on_unformatted");
    reveal_strlit("hide_parse_errors");
    reveal_strlit("show_parse_errors");
}

/// Two different scalar settings have different keys in `rustfmt.toml`.
pub proof fn law_scalar_keys_are_distinct(a: RustfmtScalarSetting, b: RustfmtScalarSetting)
    requires
        a != b,
    ensures
        a.spec_file_key() != b.spec_file_key(),
{
    lemma_key_position(a);
    lemma_key_position(b);
}

} // verus!

