use localization::catalog::text;
use localization::ids::{LangId, LocId, LANG_COUNT, LOC_COUNT};
use localization::CATALOG;

const MESSAGES: [LocId; 56] = [
    LocId::Ctrl,
    LocId::Alt,
    LocId::Shift,
    LocId::Okay,
    LocId::Yes,
    LocId::No,
    LocId::Cancel,
    LocId::Always,
    LocId::File,
    LocId::FileNew,
    LocId::FileOpen,
    LocId::FileSave,
    LocId::FileSaveAs,
    LocId::FileClose,
    LocId::FileExit,
    LocId::Edit,
    LocId::EditUndo,
    LocId::EditRedo,
    LocId::EditCut,
    LocId::EditCopy,
    LocId::EditPaste,
    LocId::EditFind,
    LocId::EditReplace,
    LocId::View,
    LocId::ViewFocusStatusbar,
    LocId::ViewWordWrap,
    LocId::Help,
    LocId::HelpAbout,
    LocId::UnsavedChangesDialogTitle,
    LocId::UnsavedChangesDialogDescription,
    LocId::UnsavedChangesDialogYes,
    LocId::UnsavedChangesDialogNo,
    LocId::AboutDialogTitle,
    LocId::AboutDialogVersion,
    LocId::LargeClipboardWarningLine1,
    LocId::LargeClipboardWarningLine2,
    LocId::LargeClipboardWarningLine3,
    LocId::SuperLargeClipboardWarning,
    LocId::WarningDialogTitle,
    LocId::ErrorDialogTitle,
    LocId::ErrorIcuMissing,
    LocId::SearchNeedleLabel,
    LocId::SearchReplacementLabel,
    LocId::SearchMatchCase,
    LocId::SearchWholeWord,
    LocId::SearchUseRegex,
    LocId::SearchReplaceAll,
    LocId::SearchClose,
    LocId::EncodingReopen,
    LocId::EncodingConvert,
    LocId::IndentationTabs,
    LocId::IndentationSpaces,
    LocId::SaveAsDialogPathLabel,
    LocId::SaveAsDialogNameLabel,
    LocId::FileOverwriteWarning,
    LocId::FileOverwriteWarningDescription,
];

const LANGUAGES: [LangId; 12] = [
    LangId::en,
    LangId::de,
    LangId::es,
    LangId::fr,
    LangId::it,
    LangId::ja,
    LangId::ko,
    LangId::pt_br,
    LangId::ru,
    LangId::zh_hans,
    LangId::zh_hant,
    LangId::vi,
];

#[test]
fn counts_are_the_cardinalities() {
    assert_eq!(LOC_COUNT, 56);
    assert_eq!(LANG_COUNT, 12);
    assert_eq!(LocId::Count.index(), LOC_COUNT);
    assert_eq!(LangId::Count.index(), LANG_COUNT);
    assert_eq!(MESSAGES.len(), LOC_COUNT);
    assert_eq!(LANGUAGES.len(), LANG_COUNT);
}

#[test]
fn indices_follow_declaration_order() {
    for (i, id) in MESSAGES.iter().enumerate() {
        assert_eq!(id.index(), i);
    }
    for (i, lang) in LANGUAGES.iter().enumerate() {
        assert_eq!(lang.index(), i);
    }
    assert_eq!(LangId::en.index(), 0);
    assert_eq!(LocId::Ctrl.index(), 0);
    assert_eq!(LocId::Okay.index(), 3);
    assert_eq!(LocId::FileSave.index(), 11);
    assert_eq!(LangId::pt_br.index(), 7);
    assert_eq!(LangId::zh_hans.index(), 9);
    assert_eq!(LangId::zh_hant.index(), 10);
    assert_eq!(LangId::vi.index(), 11);
}

#[test]
fn table_has_a_row_for_each_message_and_a_column_for_each_language() {
    assert_eq!(CATALOG.len(), LOC_COUNT);
    for row in CATALOG.iter() {
        assert_eq!(row.len(), LANG_COUNT);
    }
}

#[test]
fn every_cell_holds_text() {
    for id in MESSAGES.iter() {
        for lang in LANGUAGES.iter() {
            let s = text(*id, *lang);
            assert!(!s.is_empty(), "{:?} in {:?}", id, lang);
        }
    }
}

#[test]
fn text_reads_the_cell_of_the_table() {
    for id in MESSAGES.iter() {
        for lang in LANGUAGES.iter() {
            assert_eq!(text(*id, *lang), CATALOG[id.index()][lang.index()]);
        }
    }
}

#[test]
fn common_buttons() {
    assert_eq!(text(LocId::Okay, LangId::en), "Ok");
    assert_eq!(text(LocId::Okay, LangId::de), "OK");
    assert_eq!(text(LocId::Okay, LangId::es), "Aceptar");
    assert_eq!(text(LocId::Okay, LangId::fr), "OK");
    assert_eq!(text(LocId::Okay, LangId::it), "OK");
    assert_eq!(text(LocId::Okay, LangId::ja), "OK");
    assert_eq!(text(LocId::Okay, LangId::ko), "확인");
    assert_eq!(text(LocId::Okay, LangId::pt_br), "OK");
    assert_eq!(text(LocId::Okay, LangId::ru), "ОК");
    assert_eq!(text(LocId::Okay, LangId::zh_hans), "确定");
    assert_eq!(text(LocId::Okay, LangId::zh_hant), "確定");
    assert_eq!(text(LocId::Okay, LangId::vi), "Ok");
    assert_eq!(text(LocId::Yes, LangId::de), "Ja");
    assert_eq!(text(LocId::Yes, LangId::vi), "Đồng ý");
    assert_eq!(text(LocId::No, LangId::fr), "Non");
}

#[test]
fn keyboard_keys() {
    assert_eq!(text(LocId::Ctrl, LangId::en), "Ctrl");
    assert_eq!(text(LocId::Ctrl, LangId::de), "Strg");
    assert_eq!(text(LocId::Alt, LangId::ko), "Alt");
    assert_eq!(text(LocId::Shift, LangId::de), "Umschalt");
    assert_eq!(text(LocId::Shift, LangId::es), "Mayús");
    assert_eq!(text(LocId::Shift, LangId::fr), "Maj");
    assert_eq!(text(LocId::Shift, LangId::it), "Maiusc");
}

#[test]
fn file_save_in_portuguese() {
    assert_eq!(text(LocId::FileSave, LangId::pt_br), "Salvar");
    assert_eq!(text(LocId::FileSave, LangId::en), "Save");
}

#[test]
fn first_and_last_cell() {
    assert_eq!(text(LocId::Ctrl, LangId::en), "Ctrl");
    assert_eq!(
        text(LocId::FileOverwriteWarningDescription, LangId::vi),
        "Tập tin đã tồn tại. Bạn có muốn ghi đè nó không?"
    );
    assert_eq!(
        text(LocId::FileOverwriteWarningDescription, LangId::en),
        "File already exists. Do you want to overwrite it?"
    );
    assert_eq!(text(LocId::FileOverwriteWarning, LangId::ru), "Подтвердите «Сохранить как…»");
}

#[test]
fn size_token_is_kept_in_every_language() {
    for lang in LANGUAGES.iter() {
        let s = text(LocId::LargeClipboardWarningLine2, *lang);
        assert!(s.contains("{size}"), "{:?}", lang);
        assert_eq!(s.matches("{size}").count(), 1);
    }
    assert_eq!(
        text(LocId::LargeClipboardWarningLine2, LangId::en),
        "You copied {size} which may take a long time to share."
    );
    assert_eq!(
        text(LocId::LargeClipboardWarningLine2, LangId::ja),
        "{size} をコピーしました。共有に時間がかかる可能性があります。"
    );
}

#[test]
fn chinese_scripts_differ() {
    assert_ne!(text(LocId::Okay, LangId::zh_hans), text(LocId::Okay, LangId::zh_hant));
    assert_eq!(text(LocId::SaveAsDialogNameLabel, LangId::zh_hant), "檔案名稱:");
}

#[test]
fn lookup_twice_gives_the_same_text() {
    for id in MESSAGES.iter() {
        for lang in LANGUAGES.iter() {
            let a = text(*id, *lang);
            let b = text(*id, *lang);
            assert_eq!(a, b);
            assert_eq!(a.as_ptr(), b.as_ptr());
        }
    }
}
