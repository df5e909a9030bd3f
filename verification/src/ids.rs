//! The two closed enumerations that address the catalog: the message
//! identifiers, which select a row, and the languages, which select a column.

use vstd::prelude::*;

verus! {

/// Number of localizable messages, and so the number of rows of the catalog.
pub const LOC_COUNT: usize = 56;

/// Number of supported languages, and so the number of columns of the catalog.
pub const LANG_COUNT: usize = 12;

/// Identifies one user-facing string slot.
///
/// The members are numbered in declaration order starting at zero. The last
/// member, `Count`, names no message: its number is the number of messages.
#[derive(Clone, Copy, PartialEq, Eq, Structural, Debug, Hash)]
pub enum LocId {
    Ctrl,
    Alt,
    Shift,
    Okay,
    Yes,
    No,
    Cancel,
    Always,

    // File menu
    File,
    FileNew,
    FileOpen,
    FileSave,
    FileSaveAs,
    FileClose,
    FileExit,

    // Edit menu
    Edit,
    EditUndo,
    EditRedo,
    EditCut,
    EditCopy,
    EditPaste,
    EditFind,
    EditReplace,

    // View menu
    View,
    ViewFocusStatusbar,
    ViewWordWrap,

    // Help menu
    Help,
    HelpAbout,

    // Exit dialog
    UnsavedChangesDialogTitle,
    UnsavedChangesDialogDescription,
    UnsavedChangesDialogYes,
    UnsavedChangesDialogNo,

    // About dialog
    AboutDialogTitle,
    AboutDialogVersion,

    // Shown when the clipboard size exceeds the limit for OSC 52
    LargeClipboardWarningLine1,
    LargeClipboardWarningLine2,
    LargeClipboardWarningLine3,
    SuperLargeClipboardWarning,

    // Warning dialog
    WarningDialogTitle,

    // Error dialog
    ErrorDialogTitle,
    ErrorIcuMissing,
    SearchNeedleLabel,
    SearchReplacementLabel,
    SearchMatchCase,
    SearchWholeWord,
    SearchUseRegex,
    SearchReplaceAll,
    SearchClose,
    EncodingReopen,
    EncodingConvert,
    IndentationTabs,
    IndentationSpaces,
    SaveAsDialogPathLabel,
    SaveAsDialogNameLabel,
    FileOverwriteWarning,
    FileOverwriteWarningDescription,

    /// The number of messages. Not a message itself.
    Count,
}

/// Identifies one supported language.
///
/// The first member is the base language: the one that is chosen when no
/// preference matches. The last member, `Count`, names no language: its number
/// is the number of languages.
#[allow(non_camel_case_types)]
#[derive(Clone, Copy, PartialEq, Eq, Structural, Debug, Hash)]
pub enum LangId {
    // Base language. It is always the first one.
    en,

    // Other languages. Sorted alphabetically.
    de,
    es,
    fr,
    it,
    ja,
    ko,
    pt_br,
    ru,
    zh_hans,
    zh_hant,
    vi,

    /// The number of languages. Not a language itself.
    Count,
}

impl LocId {
    /// The number of the identifier: its position in declaration order.
    pub open spec fn spec_index(self) -> int {
        self as int
    }

    /// Whether the identifier names a message, that is, a row of the catalog.
    pub open spec fn is_message(self) -> bool {
        self != LocId::Count
    }

    /// The row of the catalog that the identifier selects.
    pub fn index(self) -> (i: usize)
        ensures
            i == self.spec_index(),
            i <= LOC_COUNT,
            i < LOC_COUNT <==> self.is_message(),
    {
        self as usize
    }
}

impl LangId {
    /// The number of the language: its position in declaration order.
    pub open spec fn spec_index(self) -> int {
        self as int
    }

    /// Whether the value names a language, that is, a column of the catalog.
    pub open spec fn is_language(self) -> bool {
        self != LangId::Count
    }

    /// The language that is chosen when no preference matches.
    pub open spec fn base() -> LangId {
        LangId::en
    }

    /// The column of the catalog that the language selects.
    pub fn index(self) -> (i: usize)
        ensures
            i == self.spec_index(),
            i <= LANG_COUNT,
            i < LANG_COUNT <==> self.is_language(),
    {
        self as usize
    }
}

/// The closing member of each enumeration is numbered with the enumeration's
/// cardinality, every other member below it, and the base language is the
/// first language.
pub proof fn lemma_counts_close_the_enumerations()
    ensures
        LocId::Count.spec_index() == LOC_COUNT,
        LangId::Count.spec_index() == LANG_COUNT,
        LangId::base().spec_index() == 0,
        forall|id: LocId| 0 <= #[trigger] id.spec_index() <= LOC_COUNT,
        forall|lang: LangId| 0 <= #[trigger] lang.spec_index() <= LANG_COUNT,
        forall|id: LocId| id.is_message() <==> #[trigger] id.spec_index() < LOC_COUNT,
        forall|lang: LangId| lang.is_language() <==> #[trigger] lang.spec_index() < LANG_COUNT,
{
}

/// Distinct identifiers select distinct rows, and distinct languages distinct
/// columns.
pub proof fn lemma_index_is_injective()
    ensures
        forall|a: LocId, b: LocId| a.spec_index() == b.spec_index() ==> a == b,
        forall|a: LangId, b: LangId| a.spec_index() == b.spec_index() ==> a == b,
{
}

} // verus!
