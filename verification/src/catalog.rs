//! The catalog: the text of every message in every supported language.
//!
//! The catalog is a table with one row for each message and one column for
//! each language. It is part of the program and never changes. Every cell
//! holds text: where a language has no wording of its own for a message, the
//! cell repeats that of another language, since a lookup never falls back to
//! another column.
//!
//! Some texts hold a token in braces, such as `{size}`. To the catalog it is
//! part of the text; whoever displays the text replaces it.

use vstd::prelude::*;
use crate::ids::{LangId, LocId, LANG_COUNT, LOC_COUNT};

verus! {

/// The table itself. Rows follow the order of [`LocId`], columns the order of
/// [`LangId`].
pub const CATALOG: [[&'static str; LANG_COUNT]; LOC_COUNT] = [
    // Ctrl (the keyboard key)
    [
        /* en      */ "Ctrl",
        /* de      */ "Strg",
        /* es      */ "Ctrl",
        /* fr      */ "Ctrl",
        /* it      */ "Ctrl",
        /* ja      */ "Ctrl",
        /* ko      */ "Ctrl",
        /* pt_br   */ "Ctrl",
        /* ru      */ "Ctrl",
        /* zh_hans */ "Ctrl",
        /* zh_hant */ "Ctrl",
        /* vi      */ "Ctrl",
    ],
    // Alt (the keyboard key)
    [
        /* en      */ "Alt",
        /* de      */ "Alt",
        /* es      */ "Alt",
        /* fr      */ "Alt",
        /* it      */ "Alt",
        /* ja      */ "Alt",
        /* ko      */ "Alt",
        /* pt_br   */ "Alt",
        /* ru      */ "Alt",
        /* zh_hans */ "Alt",
        /* zh_hant */ "Alt",
        /* vi      */ "Alt",
    ],
    // Shift (the keyboard key)
    [
        /* en      */ "Shift",
        /* de      */ "Umschalt",
        /* es      */ "Mayús",
        /* fr      */ "Maj",
        /* it      */ "Maiusc",
        /* ja      */ "Shift",
        /* ko      */ "Shift",
        /* pt_br   */ "Shift",
        /* ru      */ "Shift",
        /* zh_hans */ "Shift",
        /* zh_hant */ "Shift",
        /* vi      */ "Shift",
    ],
    // Okay (used as a common dialog button)
    [
        /* en      */ "Ok",
        /* de      */ "OK",
        /* es      */ "Aceptar",
        /* fr      */ "OK",
        /* it      */ "OK",
        /* ja      */ "OK",
        /* ko      */ "확인",
        /* pt_br   */ "OK",
        /* ru      */ "ОК",
        /* zh_hans */ "确定",
        /* zh_hant */ "確定",
        /* vi      */ "Ok",
    ],
    // Yes (used as a common dialog button)
    [
        /* en      */ "Yes",
        /* de      */ "Ja",
        /* es      */ "Sí",
        /* fr      */ "Oui",
        /* it      */ "Sì",
        /* ja      */ "はい",
        /* ko      */ "예",
        /* pt_br   */ "Sim",
        /* ru      */ "Да",
        /* zh_hans */ "是",
        /* zh_hant */ "是",
        /* vi      */ "Đồng ý",
    ],
    // No (used as a common dialog button)
    [
        /* en      */ "No",
        /* de      */ "Nein",
        /* es      */ "No",
        /* fr      */ "Non",
        /* it      */ "No",
        /* ja      */ "いいえ",
        /* ko      */ "아니오",
        /* pt_br   */ "Não",
        /* ru      */ "Нет",
        /* zh_hans */ "否",
        /* zh_hant */ "否",
        /* vi      */ "Không",
    ],
    // Cancel (used as a common dialog button)
    [
        /* en      */ "Cancel",
        /* de      */ "Abbrechen",
        /* es      */ "Cancelar",
        /* fr      */ "Annuler",
        /* it      */ "Annulla",
        /* ja      */ "キャンセル",
        /* ko      */ "취소",
        /* pt_br   */ "Cancelar",
        /* ru      */ "Отмена",
        /* zh_hans */ "取消",
        /* zh_hant */ "取消",
        /* vi      */ "Huỷ",
    ],
    // Always (used as a common dialog button)
    [
        /* en      */ "Always",
        /* de      */ "Immer",
        /* es      */ "Siempre",
        /* fr      */ "Toujours",
        /* it      */ "Sempre",
        /* ja      */ "常に",
        /* ko      */ "항상",
        /* pt_br   */ "Sempre",
        /* ru      */ "Всегда",
        /* zh_hans */ "总是",
        /* zh_hant */ "總是",
        /* vi      */ "Luôn luôn",
    ],
    // File (a menu bar item)
    [
        /* en      */ "File",
        /* de      */ "Datei",
        /* es      */ "Archivo",
        /* fr      */ "Fichier",
        /* it      */ "File",
        /* ja      */ "ファイル",
        /* ko      */ "파일",
        /* pt_br   */ "Arquivo",
        /* ru      */ "Файл",
        /* zh_hans */ "文件",
        /* zh_hant */ "檔案",
        /* vi      */ "Tập tin",
    ],
    // FileNew
    [
        /* en      */ "New File…",
        /* de      */ "Neue Datei…",
        /* es      */ "Nuevo archivo…",
        /* fr      */ "Nouveau fichier…",
        /* it      */ "Nuovo file…",
        /* ja      */ "新規ファイル…",
        /* ko      */ "새 파일…",
        /* pt_br   */ "Novo arquivo…",
        /* ru      */ "Новый файл…",
        /* zh_hans */ "新建文件…",
        /* zh_hant */ "新增檔案…",
        /* vi      */ "Tập tin mới…",
    ],
    // FileOpen
    [
        /* en      */ "Open File…",
        /* de      */ "Datei öffnen…",
        /* es      */ "Abrir archivo…",
        /* fr      */ "Ouvrir un fichier…",
        /* it      */ "Apri file…",
        /* ja      */ "ファイルを開く…",
        /* ko      */ "파일 열기…",
        /* pt_br   */ "Abrir arquivo…",
        /* ru      */ "Открыть файл…",
        /* zh_hans */ "打开文件…",
        /* zh_hant */ "開啟檔案…",
        /* vi      */ "Mở tập tin…",
    ],
    // FileSave
    [
        /* en      */ "Save",
        /* de      */ "Speichern",
        /* es      */ "Guardar",
        /* fr      */ "Enregistrer",
        /* it      */ "Salva",
        /* ja      */ "保存",
        /* ko      */ "저장",
        /* pt_br   */ "Salvar",
        /* ru      */ "Сохранить",
        /* zh_hans */ "保存",
        /* zh_hant */ "儲存",
        /* vi      */ "Lưu",
    ],
    // FileSaveAs
    [
        /* en      */ "Save As…",
        /* de      */ "Speichern unter…",
        /* es      */ "Guardar como…",
        /* fr      */ "Enregistrer sous…",
        /* it      */ "Salva come…",
        /* ja      */ "名前を付けて保存…",
        /* ko      */ "다른 이름으로 저장…",
        /* pt_br   */ "Salvar como…",
        /* ru      */ "Сохранить как…",
        /* zh_hans */ "另存为…",
        /* zh_hant */ "另存新檔…",
        /* vi      */ "Lưu như…",
    ],
    // FileClose
    [
        /* en      */ "Close Editor",
        /* de      */ "Editor schließen",
        /* es      */ "Cerrar editor",
        /* fr      */ "Fermer l'éditeur",
        /* it      */ "Chiudi editor",
        /* ja      */ "エディターを閉じる",
        /* ko      */ "편집기 닫기",
        /* pt_br   */ "Fechar editor",
        /* ru      */ "Закрыть редактор",
        /* zh_hans */ "关闭编辑器",
        /* zh_hant */ "關閉編輯器",
        /* vi      */ "Đóng editor",
    ],
    // FileExit
    [
        /* en      */ "Exit",
        /* de      */ "Beenden",
        /* es      */ "Salir",
        /* fr      */ "Quitter",
        /* it      */ "Esci",
        /* ja      */ "終了",
        /* ko      */ "종료",
        /* pt_br   */ "Sair",
        /* ru      */ "Выход",
        /* zh_hans */ "退出",
        /* zh_hant */ "退出",
        /* vi      */ "Thoát",
    ],
    // Edit (a menu bar item)
    [
        /* en      */ "Edit",
        /* de      */ "Bearbeiten",
        /* es      */ "Editar",
        /* fr      */ "Édition",
        /* it      */ "Modifica",
        /* ja      */ "編集",
        /* ko      */ "편집",
        /* pt_br   */ "Editar",
        /* ru      */ "Правка",
        /* zh_hans */ "编辑",
        /* zh_hant */ "編輯",
        /* vi      */ "Chỉnh sửa",
    ],
    // EditUndo
    [
        /* en      */ "Undo",
        /* de      */ "Rückgängig",
        /* es      */ "Deshacer",
        /* fr      */ "Annuler",
        /* it      */ "Annulla",
        /* ja      */ "元に戻す",
        /* ko      */ "실행 취소",
        /* pt_br   */ "Desfazer",
        /* ru      */ "Отменить",
        /* zh_hans */ "撤销",
        /* zh_hant */ "復原",
        /* vi      */ "Hoàn tác",
    ],
    // EditRedo
    [
        /* en      */ "Redo",
        /* de      */ "Wiederholen",
        /* es      */ "Rehacer",
        /* fr      */ "Rétablir",
        /* it      */ "Ripeti",
        /* ja      */ "やり直し",
        /* ko      */ "다시 실행",
        /* pt_br   */ "Refazer",
        /* ru      */ "Повторить",
        /* zh_hans */ "重做",
        /* zh_hant */ "重做",
        /* vi      */ "Thực hiện lại",
    ],
    // EditCut
    [
        /* en      */ "Cut",
        /* de      */ "Ausschneiden",
        /* es      */ "Cortar",
        /* fr      */ "Couper",
        /* it      */ "Taglia",
        /* ja      */ "切り取り",
        /* ko      */ "잘라내기",
        /* pt_br   */ "Cortar",
        /* ru      */ "Вырезать",
        /* zh_hans */ "剪切",
        /* zh_hant */ "剪下",
        /* vi      */ "Cắt",
    ],
    // EditCopy
    [
        /* en      */ "Copy",
        /* de      */ "Kopieren",
        /* es      */ "Copiar",
        /* fr      */ "Copier",
        /* it      */ "Copia",
        /* ja      */ "コピー",
        /* ko      */ "복사",
        /* pt_br   */ "Copiar",
        /* ru      */ "Копировать",
        /* zh_hans */ "复制",
        /* zh_hant */ "複製",
        /* vi      */ "Chép",
    ],
    // EditPaste
    [
        /* en      */ "Paste",
        /* de      */ "Einfügen",
        /* es      */ "Pegar",
        /* fr      */ "Coller",
        /* it      */ "Incolla",
        /* ja      */ "貼り付け",
        /* ko      */ "붙여넣기",
        /* pt_br   */ "Colar",
        /* ru      */ "Вставить",
        /* zh_hans */ "粘贴",
        /* zh_hant */ "貼上",
        /* vi      */ "Dán",
    ],
    // EditFind
    [
        /* en      */ "Find",
        /* de      */ "Suchen",
        /* es      */ "Buscar",
        /* fr      */ "Rechercher",
        /* it      */ "Trova",
        /* ja      */ "検索",
        /* ko      */ "찾기",
        /* pt_br   */ "Encontrar",
        /* ru      */ "Найти",
        /* zh_hans */ "查找",
        /* zh_hant */ "尋找",
        /* vi      */ "Tìm kiếm",
    ],
    // EditReplace
    [
        /* en      */ "Replace",
        /* de      */ "Ersetzen",
        /* es      */ "Reemplazar",
        /* fr      */ "Remplacer",
        /* it      */ "Sostituisci",
        /* ja      */ "置換",
        /* ko      */ "바꾸기",
        /* pt_br   */ "Substituir",
        /* ru      */ "Заменить",
        /* zh_hans */ "替换",
        /* zh_hant */ "取代",
        /* vi      */ "Thay thế",
    ],
    // View (a menu bar item)
    [
        /* en      */ "View",
        /* de      */ "Ansicht",
        /* es      */ "Ver",
        /* fr      */ "Affichage",
        /* it      */ "Visualizza",
        /* ja      */ "表示",
        /* ko      */ "보기",
        /* pt_br   */ "Exibir",
        /* ru      */ "Вид",
        /* zh_hans */ "视图",
        /* zh_hant */ "檢視",
        /* vi      */ "Xem",
    ],
    // ViewFocusStatusbar
    [
        /* en      */ "Focus Statusbar",
        /* de      */ "Statusleiste fokussieren",
        /* es      */ "Enfocar barra de estado",
        /* fr      */ "Activer la barre d’état",
        /* it      */ "Attiva barra di stato",
        /* ja      */ "ステータスバーにフォーカス",
        /* ko      */ "상태 표시줄로 포커스 이동",
        /* pt_br   */ "Focar barra de status",
        /* ru      */ "Фокус на строку состояния",
        /* zh_hans */ "聚焦状态栏",
        /* zh_hant */ "聚焦狀態列",
        /* vi      */ "Vào thanh trạng thái",
    ],
    // ViewWordWrap
    [
        /* en      */ "Word Wrap",
        /* de      */ "Zeilenumbruch",
        /* es      */ "Ajuste de línea",
        /* fr      */ "Retour à la ligne",
        /* it      */ "A capo automatico",
        /* ja      */ "折り返し",
        /* ko      */ "자동 줄 바꿈",
        /* pt_br   */ "Quebra de linha",
        /* ru      */ "Перенос слов",
        /* zh_hans */ "自动换行",
        /* zh_hant */ "自動換行",
        /* vi      */ "Ngắt dòng",
    ],
    // Help (a menu bar item)
    [
        /* en      */ "Help",
        /* de      */ "Hilfe",
        /* es      */ "Ayuda",
        /* fr      */ "Aide",
        /* it      */ "Aiuto",
        /* ja      */ "ヘルプ",
        /* ko      */ "도움말",
        /* pt_br   */ "Ajuda",
        /* ru      */ "Помощь",
        /* zh_hans */ "帮助",
        /* zh_hant */ "幫助",
        /* vi      */ "Trợ giúp",
    ],
    // HelpAbout
    [
        /* en      */ "About",
        /* de      */ "Über",
        /* es      */ "Acerca de",
        /* fr      */ "À propos",
        /* it      */ "Informazioni",
        /* ja      */ "情報",
        /* ko      */ "정보",
        /* pt_br   */ "Sobre",
        /* ru      */ "О программе",
        /* zh_hans */ "关于",
        /* zh_hant */ "關於",
        /* vi      */ "Giới thiệu",
    ],
    // UnsavedChangesDialogTitle
    [
        /* en      */ "Unsaved Changes",
        /* de      */ "Ungespeicherte Änderungen",
        /* es      */ "Cambios sin guardar",
        /* fr      */ "Modifications non enregistrées",
        /* it      */ "Modifiche non salvate",
        /* ja      */ "未保存の変更",
        /* ko      */ "저장되지 않은 변경 사항",
        /* pt_br   */ "Alterações não salvas",
        /* ru      */ "Несохраненные изменения",
        /* zh_hans */ "未保存的更改",
        /* zh_hant */ "未儲存的變更",
        /* vi      */ "Thay đổi chưa được lưu",
    ],
    // UnsavedChangesDialogDescription
    [
        /* en      */ "Do you want to save the changes you made?",
        /* de      */ "Möchten Sie die vorgenommenen Änderungen speichern?",
        /* es      */ "¿Desea guardar los cambios realizados?",
        /* fr      */ "Voulez-vous enregistrer les modifications apportées ?",
        /* it      */ "Vuoi salvare le modifiche apportate?",
        /* ja      */ "変更内容を保存しますか？",
        /* ko      */ "변경한 내용을 저장하시겠습니까?",
        /* pt_br   */ "Deseja salvar as alterações feitas?",
        /* ru      */ "Вы хотите сохранить внесённые изменения?",
        /* zh_hans */ "您要保存所做的更改吗？",
        /* zh_hant */ "您要保存所做的變更嗎？",
        /* vi      */ "Bạn có muôn lưu các thay đổi đã thực hiện?",
    ],
    // UnsavedChangesDialogYes
    [
        /* en      */ "Save",
        /* de      */ "Speichern",
        /* es      */ "Guardar",
        /* fr      */ "Enregistrer",
        /* it      */ "Salva",
        /* ja      */ "保存",
        /* ko      */ "저장",
        /* pt_br   */ "Salvar",
        /* ru      */ "Сохранить",
        /* zh_hans */ "保存",
        /* zh_hant */ "儲存",
        /* vi      */ "Lưu",
    ],
    // UnsavedChangesDialogNo
    [
        /* en      */ "Don't Save",
        /* de      */ "Nicht speichern",
        /* es      */ "No guardar",
        /* fr      */ "Ne pas enregistrer",
        /* it      */ "Non salvare",
        /* ja      */ "保存しない",
        /* ko      */ "저장 안 함",
        /* pt_br   */ "Não salvar",
        /* ru      */ "Не сохранять",
        /* zh_hans */ "不保存",
        /* zh_hant */ "不儲存",
        /* vi      */ "Không lưu",
    ],
    // AboutDialogTitle
    [
        /* en      */ "About",
        /* de      */ "Über",
        /* es      */ "Acerca de",
        /* fr      */ "À propos",
        /* it      */ "Informazioni",
        /* ja      */ "情報",
        /* ko      */ "정보",
        /* pt_br   */ "Sobre",
        /* ru      */ "О программе",
        /* zh_hans */ "关于",
        /* zh_hant */ "關於",
        /* vi      */ "Giới thiệu",
    ],
    // AboutDialogVersion
    [
        /* en      */ "Version: ",
        /* de      */ "Version: ",
        /* es      */ "Versión: ",
        /* fr      */ "Version : ",
        /* it      */ "Versione: ",
        /* ja      */ "バージョン: ",
        /* ko      */ "버전: ",
        /* pt_br   */ "Versão: ",
        /* ru      */ "Версия: ",
        /* zh_hans */ "版本: ",
        /* zh_hant */ "版本: ",
        /* vi      */ "Phiên bản: ",
    ],
    // LargeClipboardWarningLine1
    [
        /* en      */ "Text you copy is shared with the terminal clipboard.",
        /* de      */ "Der kopierte Text wird mit der Terminal-Zwischenablage geteilt.",
        /* es      */ "El texto que copies se comparte con el portapapeles del terminal.",
        /* fr      */ "Le texte que vous copiez est partagé avec le presse-papiers du terminal.",
        /* it      */ "Il testo copiato viene condiviso con gli appunti del terminale.",
        /* ja      */ "コピーしたテキストはターミナルのクリップボードと共有されます。",
        /* ko      */ "복사한 텍스트가 터미널 클립보드와 공유됩니다.",
        /* pt_br   */ "O texto copiado é compartilhado com a área de transferência do terminal.",
        /* ru      */ "Скопированный текст передаётся в буфер обмена терминала.",
        /* zh_hans */ "你复制的文本将共享到终端剪贴板。",
        /* zh_hant */ "您複製的文字將會與終端機剪貼簿分享。",
        /* vi      */ "Văn bản sao chép được chia sẻ với clipboard của hộp lệnh terminal.",
    ],
    // LargeClipboardWarningLine2
    [
        /* en      */ "You copied {size} which may take a long time to share.",
        /* de      */ "Sie haben {size} kopiert, das Weitergeben könnte lange dauern.",
        /* es      */ "Copiaste {size}, lo que puede tardar en compartirse.",
        /* fr      */ "Vous avez copié {size}, ce qui peut être long à partager.",
        /* it      */ "Hai copiato {size}, potrebbe richiedere molto tempo per condividerlo.",
        /* ja      */ "{size} をコピーしました。共有に時間がかかる可能性があります。",
        /* ko      */ "{size}를 복사했습니다. 공유하는 데 시간이 오래 걸릴 수 있습니다.",
        /* pt_br   */ "Você copiou {size}, o que pode demorar para compartilhar.",
        /* ru      */ "Вы скопировали {size}; передача может занять много времени.",
        /* zh_hans */ "你复制了 {size}，共享可能需要较长时间。",
        /* zh_hant */ "您已複製 {size}，共享可能需要較長時間。",
        /* vi      */ "Bạn đã sao chép {size}, có thể mất một lúc để chia sẻ.",
    ],
    // LargeClipboardWarningLine3
    [
        /* en      */ "Do you want to send it anyway?",
        /* de      */ "Möchten Sie es trotzdem senden?",
        /* es      */ "¿Desea enviarlo de todas formas?",
        /* fr      */ "Voulez-vous quand même l’envoyer?",
        /* it      */ "Vuoi inviarlo comunque?",
        /* ja      */ "それでも送信しますか？",
        /* ko      */ "그래도 전송하시겠습니까?",
        /* pt_br   */ "Deseja enviar mesmo assim?",
        /* ru      */ "Отправить в любом случае?",
        /* zh_hans */ "仍要发送吗？",
        /* zh_hant */ "仍要傳送嗎？",
        /* vi      */ "Bạn có muốn tiếp tục gửi đi không?",
    ],
    // SuperLargeClipboardWarning (as an alternative to LargeClipboardWarningLine2 and 3)
    [
        /* en      */ "The text you copied is too large to be shared.",
        /* de      */ "Der kopierte Text ist zu groß, um geteilt zu werden.",
        /* es      */ "El texto que copiaste es demasiado grande para compartirse.",
        /* fr      */ "Le texte que vous avez copié est trop volumineux pour être partagé.",
        /* it      */ "Il testo copiato è troppo grande per essere condiviso.",
        /* ja      */ "コピーしたテキストは大きすぎて共有できません。",
        /* ko      */ "복사한 텍스트가 너무 커서 공유할 수 없습니다.",
        /* pt_br   */ "O texto copiado é grande demais para ser compartilhado.",
        /* ru      */ "Скопированный текст слишком велик для передачи.",
        /* zh_hans */ "你复制的文本过大，无法共享。",
        /* zh_hant */ "您複製的文字過大，無法分享。",
        /* vi      */ "Văn bản sao chép quá lớn để chia sẻ.",
    ],
    // WarningDialogTitle
    [
        /* en      */ "Warning",
        /* de      */ "Warnung",
        /* es      */ "Advertencia",
        /* fr      */ "Avertissement",
        /* it      */ "Avviso",
        /* ja      */ "警告",
        /* ko      */ "경고",
        /* pt_br   */ "Aviso",
        /* ru      */ "Предупреждение",
        /* zh_hans */ "警告",
        /* zh_hant */ "警告",
        /* vi      */ "Cảnh báo",
    ],
    // ErrorDialogTitle
    [
        /* en      */ "Error",
        /* de      */ "Fehler",
        /* es      */ "Error",
        /* fr      */ "Erreur",
        /* it      */ "Errore",
        /* ja      */ "エラー",
        /* ko      */ "오류",
        /* pt_br   */ "Erro",
        /* ru      */ "Ошибка",
        /* zh_hans */ "错误",
        /* zh_hant */ "錯誤",
        /* vi      */ "Lỗi",
    ],
    // ErrorIcuMissing
    [
        /* en      */ "This operation requires the ICU library",
        /* de      */ "Diese Operation erfordert die ICU-Bibliothek",
        /* es      */ "Esta operación requiere la biblioteca ICU",
        /* fr      */ "Cette opération nécessite la bibliothèque ICU",
        /* it      */ "Questa operazione richiede la libreria ICU",
        /* ja      */ "この操作にはICUライブラリが必要です",
        /* ko      */ "이 작업에는 ICU 라이브러리가 필요합니다",
        /* pt_br   */ "Esta operação requer a biblioteca ICU",
        /* ru      */ "Эта операция требует наличия библиотеки ICU",
        /* zh_hans */ "此操作需要 ICU 库",
        /* zh_hant */ "此操作需要 ICU 庫",
        /* vi      */ "Thao tác này yêu cầu sử dụng thư viện ICU.",
    ],
    // SearchNeedleLabel (for input field)
    [
        /* en      */ "Find:",
        /* de      */ "Suchen:",
        /* es      */ "Buscar:",
        /* fr      */ "Rechercher :",
        /* it      */ "Trova:",
        /* ja      */ "検索:",
        /* ko      */ "찾기:",
        /* pt_br   */ "Encontrar:",
        /* ru      */ "Найти:",
        /* zh_hans */ "查找:",
        /* zh_hant */ "尋找:",
        /* vi      */ "Tìm kiếm:",
    ],
    // SearchReplacementLabel (for input field)
    [
        /* en      */ "Replace:",
        /* de      */ "Ersetzen:",
        /* es      */ "Reemplazar:",
        /* fr      */ "Remplacer :",
        /* it      */ "Sostituire:",
        /* ja      */ "置換:",
        /* ko      */ "바꾸기:",
        /* pt_br   */ "Substituir:",
        /* ru      */ "Замена:",
        /* zh_hans */ "替换:",
        /* zh_hant */ "替換:",
        /* vi      */ "Thay thế:",
    ],
    // SearchMatchCase (toggle)
    [
        /* en      */ "Match Case",
        /* de      */ "Groß/Klein",
        /* es      */ "May/Min",
        /* fr      */ "Casse",
        /* it      */ "Maius/minus",
        /* ja      */ "大/小文字",
        /* ko      */ "대소문자",
        /* pt_br   */ "Maius/minus",
        /* ru      */ "Регистр",
        /* zh_hans */ "区分大小写",
        /* zh_hant */ "區分大小寫",
        /* vi      */ "Khớp HOA/thường:",
    ],
    // SearchWholeWord (toggle)
    [
        /* en      */ "Whole Word",
        /* de      */ "Ganzes Wort",
        /* es      */ "Palabra",
        /* fr      */ "Mot entier",
        /* it      */ "Parola",
        /* ja      */ "単語単位",
        /* ko      */ "전체 단어",
        /* pt_br   */ "Palavra",
        /* ru      */ "Слово",
        /* zh_hans */ "全字匹配",
        /* zh_hant */ "全字匹配",
        /* vi      */ "Toàn bộ từ",
    ],
    // SearchUseRegex (toggle)
    [
        /* en      */ "Use Regex",
        /* de      */ "RegEx",
        /* es      */ "RegEx",
        /* fr      */ "RegEx",
        /* it      */ "RegEx",
        /* ja      */ "正規表現",
        /* ko      */ "정규식",
        /* pt_br   */ "RegEx",
        /* ru      */ "RegEx",
        /* zh_hans */ "正则",
        /* zh_hant */ "正則",
        /* vi      */ "Dùng Regex",
    ],
    // SearchReplaceAll (button)
    [
        /* en      */ "Replace All",
        /* de      */ "Alle ersetzen",
        /* es      */ "Reemplazar todo",
        /* fr      */ "Remplacer tout",
        /* it      */ "Sostituisci tutto",
        /* ja      */ "すべて置換",
        /* ko      */ "모두 바꾸기",
        /* pt_br   */ "Substituir tudo",
        /* ru      */ "Заменить все",
        /* zh_hans */ "全部替换",
        /* zh_hant */ "全部取代",
        /* vi      */ "Thay thế hết",
    ],
    // SearchClose (button)
    [
        /* en      */ "Close",
        /* de      */ "Schließen",
        /* es      */ "Cerrar",
        /* fr      */ "Fermer",
        /* it      */ "Chiudi",
        /* ja      */ "閉じる",
        /* ko      */ "닫기",
        /* pt_br   */ "Fechar",
        /* ru      */ "Закрыть",
        /* zh_hans */ "关闭",
        /* zh_hant */ "關閉",
        /* vi      */ "Đóng",
    ],
    // EncodingReopen
    [
        /* en      */ "Reopen with encoding",
        /* de      */ "Mit Kodierung erneut öffnen",
        /* es      */ "Reabrir con codificación",
        /* fr      */ "Rouvrir avec un encodage différent",
        /* it      */ "Riapri con codifica",
        /* ja      */ "エンコーディングで再度開く",
        /* ko      */ "인코딩으로 다시 열기",
        /* pt_br   */ "Reabrir com codificação",
        /* ru      */ "Открыть снова с кодировкой",
        /* zh_hans */ "使用编码重新打开",
        /* zh_hant */ "使用編碼重新打開",
        /* vi      */ "Mở lại với bộ mã hoá",
    ],
    // EncodingConvert
    [
        /* en      */ "Convert to encoding",
        /* de      */ "In Kodierung konvertieren",
        /* es      */ "Convertir a otra codificación",
        /* fr      */ "Convertir en encodage",
        /* it      */ "Converti in codifica",
        /* ja      */ "エンコーディングに変換",
        /* ko      */ "인코딩으로 변환",
        /* pt_br   */ "Converter para codificação",
        /* ru      */ "Преобразовать в кодировку",
        /* zh_hans */ "转换为编码",
        /* zh_hant */ "轉換為編碼",
        /* vi      */ "Chuyển sang bộ mã hoá",
    ],
    // IndentationTabs
    [
        /* en      */ "Tabs",
        /* de      */ "Tabs",
        /* es      */ "Tabulaciones",
        /* fr      */ "Tabulations",
        /* it      */ "Tabulazioni",
        /* ja      */ "タブ",
        /* ko      */ "탭",
        /* pt_br   */ "Tabulações",
        /* ru      */ "Табы",
        /* zh_hans */ "制表符",
        /* zh_hant */ "製表符",
        /* vi      */ "Dấu tab",
    ],
    // IndentationSpaces
    [
        /* en      */ "Spaces",
        /* de      */ "Leerzeichen",
        /* es      */ "Espacios",
        /* fr      */ "Espaces",
        /* it      */ "Spazi",
        /* ja      */ "スペース",
        /* ko      */ "공백",
        /* pt_br   */ "Espaços",
        /* ru      */ "Пробелы",
        /* zh_hans */ "空格",
        /* zh_hant */ "空格",
        /* vi      */ "Dấu cách",
    ],
    // SaveAsDialogPathLabel
    [
        /* en      */ "Folder:",
        /* de      */ "Ordner:",
        /* es      */ "Carpeta:",
        /* fr      */ "Dossier :",
        /* it      */ "Cartella:",
        /* ja      */ "フォルダ:",
        /* ko      */ "폴더:",
        /* pt_br   */ "Pasta:",
        /* ru      */ "Папка:",
        /* zh_hans */ "文件夹:",
        /* zh_hant */ "資料夾:",
        /* vi      */ "Thư mục:",
    ],
    // SaveAsDialogNameLabel
    [
        /* en      */ "File name:",
        /* de      */ "Dateiname:",
        /* es      */ "Nombre de archivo:",
        /* fr      */ "Nom de fichier :",
        /* it      */ "Nome del file:",
        /* ja      */ "ファイル名:",
        /* ko      */ "파일 이름:",
        /* pt_br   */ "Nome do arquivo:",
        /* ru      */ "Имя файла:",
        /* zh_hans */ "文件名:",
        /* zh_hant */ "檔案名稱:",
        /* vi      */ "Tên tập tin:",
    ],
    // FileOverwriteWarning
    [
        /* en      */ "Confirm Save As",
        /* de      */ "Speichern unter bestätigen",
        /* es      */ "Confirmar Guardar como",
        /* fr      */ "Confirmer Enregistrer sous",
        /* it      */ "Conferma Salva con nome",
        /* ja      */ "名前を付けて保存の確認",
        /* ko      */ "다른 이름으로 저장 확인",
        /* pt_br   */ "Confirmar Salvar como",
        /* ru      */ "Подтвердите «Сохранить как…»",
        /* zh_hans */ "确认另存为",
        /* zh_hant */ "確認另存新檔",
        /* vi      */ "Xác nhận Lưu như",
    ],
    // FileOverwriteWarningDescription
    [
        /* en      */ "File already exists. Do you want to overwrite it?",
        /* de      */ "Datei existiert bereits. Möchten Sie sie überschreiben?",
        /* es      */ "El archivo ya existe. ¿Desea sobrescribirlo?",
        /* fr      */ "Le fichier existe déjà. Voulez-vous l’écraser?",
        /* it      */ "Il file esiste già. Vuoi sovrascriverlo?",
        /* ja      */ "ファイルは既に存在します。上書きしますか？",
        /* ko      */ "파일이 이미 존재합니다. 덮어쓰시겠습니까?",
        /* pt_br   */ "O arquivo já existe. Deseja sobrescrevê-lo?",
        /* ru      */ "Файл уже существует. Перезаписать?",
        /* zh_hans */ "文件已存在。要覆盖它吗？",
        /* zh_hant */ "檔案已存在。要覆蓋它嗎？",
        /* vi      */ "Tập tin đã tồn tại. Bạn có muốn ghi đè nó không?",
    ],
];

/// The text of message `id` in language `lang`, as a sequence of characters.
pub open spec fn cell(id: LocId, lang: LangId) -> Seq<char>
    recommends
        id.is_message(),
        lang.is_language(),
{
    CATALOG[id.spec_index()][lang.spec_index()]@
}

/// Looks up the text of message `id` in language `lang`.
pub fn text(id: LocId, lang: LangId) -> (s: &'static str)
    requires
        id.is_message(),
        lang.is_language(),
    ensures
        s@ == cell(id, lang),
        s@.len() > 0,
{
    proof {
        lemma_every_cell_holds_text(id, lang);
    }
    CATALOG[id.index()][lang.index()]
}

/// No cell of the catalog is empty: every message has a text in every
/// language.
///
/// Verus learns what a string literal holds one literal at a time, so the
/// proof goes through the table cell by cell and names the text of each.
pub proof fn lemma_every_cell_holds_text(id: LocId, lang: LangId)
    requires
        id.is_message(),
        lang.is_language(),
    ensures
        cell(id, lang).len() > 0,
{
    match id {
        LocId::Ctrl => match lang {
            LangId::en => reveal_strlit("Ctrl"),
            LangId::de => reveal_strlit("Strg"),
            LangId::es => reveal_strlit("Ctrl"),
            LangId::fr => reveal_strlit("Ctrl"),
            LangId::it => reveal_strlit("Ctrl"),
            LangId::ja => reveal_strlit("Ctrl"),
            LangId::ko => reveal_strlit("Ctrl"),
            LangId::pt_br => reveal_strlit("Ctrl"),
            LangId::ru => reveal_strlit("Ctrl"),
            LangId::zh_hans => reveal_strlit("Ctrl"),
            LangId::zh_hant => reveal_strlit("Ctrl"),
            LangId::vi => reveal_strlit("Ctrl"),
            LangId::Count => {},
        },
        LocId::Alt => match lang {
            LangId::en => reveal_strlit("Alt"),
            LangId::de => reveal_strlit("Alt"),
            LangId::es => reveal_strlit("Alt"),
            LangId::fr => reveal_strlit("Alt"),
            LangId::it => reveal_strlit("Alt"),
            LangId::ja => reveal_strlit("Alt"),
            LangId::ko => reveal_strlit("Alt"),
            LangId::pt_br => reveal_strlit("Alt"),
            LangId::ru => reveal_strlit("Alt"),
            LangId::zh_hans => reveal_strlit("Alt"),
            LangId::zh_hant => reveal_strlit("Alt"),
            LangId::vi => reveal_strlit("Alt"),
            LangId::Count => {},
        },
        LocId::Shift => match lang {
            LangId::en => reveal_strlit("Shift"),
            LangId::de => reveal_strlit("Umschalt"),
            LangId::es => reveal_strlit("Mayús"),
            LangId::fr => reveal_strlit("Maj"),
            LangId::it => reveal_strlit("Maiusc"),
            LangId::ja => reveal_strlit("Shift"),
            LangId::ko => reveal_strlit("Shift"),
            LangId::pt_br => reveal_strlit("Shift"),
            LangId::ru => reveal_strlit("Shift"),
            LangId::zh_hans => reveal_strlit("Shift"),
            LangId::zh_hant => reveal_strlit("Shift"),
            LangId::vi => reveal_strlit("Shift"),
            LangId::Count => {},
        },
        LocId::Okay => match lang {
            LangId::en => reveal_strlit("Ok"),
            LangId::de => reveal_strlit("OK"),
            LangId::es => reveal_strlit("Aceptar"),
            LangId::fr => reveal_strlit("OK"),
            LangId::it => reveal_strlit("OK"),
            LangId::ja => reveal_strlit("OK"),
            LangId::ko => reveal_strlit("확인"),
            LangId::pt_br => reveal_strlit("OK"),
            LangId::ru => reveal_strlit("ОК"),
            LangId::zh_hans => reveal_strlit("确定"),
            LangId::zh_hant => reveal_strlit("確定"),
            LangId::vi => reveal_strlit("Ok"),
            LangId::Count => {},
        },
        LocId::Yes => match lang {
            LangId::en => reveal_strlit("Yes"),
            LangId::de => reveal_strlit("Ja"),
            LangId::es => reveal_strlit("Sí"),
            LangId::fr => reveal_strlit("Oui"),
            LangId::it => reveal_strlit("Sì"),
            LangId::ja => reveal_strlit("はい"),
            LangId::ko => reveal_strlit("예"),
            LangId::pt_br => reveal_strlit("Sim"),
            LangId::ru => reveal_strlit("Да"),
            LangId::zh_hans => reveal_strlit("是"),
            LangId::zh_hant => reveal_strlit("是"),
            LangId::vi => reveal_strlit("Đồng ý"),
            LangId::Count => {},
        },
        LocId::No => match lang {
            LangId::en => reveal_strlit("No"),
            LangId::de => reveal_strlit("Nein"),
            LangId::es => reveal_strlit("No"),
            LangId::fr => reveal_strlit("Non"),
            LangId::it => reveal_strlit("No"),
            LangId::ja => reveal_strlit("いいえ"),
            LangId::ko => reveal_strlit("아니오"),
            LangId::pt_br => reveal_strlit("Não"),
            LangId::ru => reveal_strlit("Нет"),
            LangId::zh_hans => reveal_strlit("否"),
            LangId::zh_hant => reveal_strlit("否"),
            LangId::vi => reveal_strlit("Không"),
            LangId::Count => {},
        },
        LocId::Cancel => match lang {
            LangId::en => reveal_strlit("Cancel"),
            LangId::de => reveal_strlit("Abbrechen"),
            LangId::es => reveal_strlit("Cancelar"),
            LangId::fr => reveal_strlit("Annuler"),
            LangId::it => reveal_strlit("Annulla"),
            LangId::ja => reveal_strlit("キャンセル"),
            LangId::ko => reveal_strlit("취소"),
            LangId::pt_br => reveal_strlit("Cancelar"),
            LangId::ru => reveal_strlit("Отмена"),
            LangId::zh_hans => reveal_strlit("取消"),
            LangId::zh_hant => reveal_strlit("取消"),
            LangId::vi => reveal_strlit("Huỷ"),
            LangId::Count => {},
        },
        LocId::Always => match lang {
            LangId::en => reveal_strlit("Always"),
            LangId::de => reveal_strlit("Immer"),
            LangId::es => reveal_strlit("Siempre"),
            LangId::fr => reveal_strlit("Toujours"),
            LangId::it => reveal_strlit("Sempre"),
            LangId::ja => reveal_strlit("常に"),
            LangId::ko => reveal_strlit("항상"),
            LangId::pt_br => reveal_strlit("Sempre"),
            LangId::ru => reveal_strlit("Всегда"),
            LangId::zh_hans => reveal_strlit("总是"),
            LangId::zh_hant => reveal_strlit("總是"),
            LangId::vi => reveal_strlit("Luôn luôn"),
            LangId::Count => {},
        },
        LocId::File => match lang {
            LangId::en => reveal_strlit("File"),
            LangId::de => reveal_strlit("Datei"),
            LangId::es => reveal_strlit("Archivo"),
            LangId::fr => reveal_strlit("Fichier"),
            LangId::it => reveal_strlit("File"),
            LangId::ja => reveal_strlit("ファイル"),
            LangId::ko => reveal_strlit("파일"),
            LangId::pt_br => reveal_strlit("Arquivo"),
            LangId::ru => reveal_strlit("Файл"),
            LangId::zh_hans => reveal_strlit("文件"),
            LangId::zh_hant => reveal_strlit("檔案"),
            LangId::vi => reveal_strlit("Tập tin"),
            LangId::Count => {},
        },
        LocId::FileNew => match lang {
            LangId::en => reveal_strlit("New File…"),
            LangId::de => reveal_strlit("Neue Datei…"),
            LangId::es => reveal_strlit("Nuevo archivo…"),
            LangId::fr => reveal_strlit("Nouveau fichier…"),
            LangId::it => reveal_strlit("Nuovo file…"),
            LangId::ja => reveal_strlit("新規ファイル…"),
            LangId::ko => reveal_strlit("새 파일…"),
            LangId::pt_br => reveal_strlit("Novo arquivo…"),
            LangId::ru => reveal_strlit("Новый файл…"),
            LangId::zh_hans => reveal_strlit("新建文件…"),
            LangId::zh_hant => reveal_strlit("新增檔案…"),
            LangId::vi => reveal_strlit("Tập tin mới…"),
            LangId::Count => {},
        },
        LocId::FileOpen => match lang {
            LangId::en => reveal_strlit("Open File…"),
            LangId::de => reveal_strlit("Datei öffnen…"),
            LangId::es => reveal_strlit("Abrir archivo…"),
            LangId::fr => reveal_strlit("Ouvrir un fichier…"),
            LangId::it => reveal_strlit("Apri file…"),
            LangId::ja => reveal_strlit("ファイルを開く…"),
            LangId::ko => reveal_strlit("파일 열기…"),
            LangId::pt_br => reveal_strlit("Abrir arquivo…"),
            LangId::ru => reveal_strlit("Открыть файл…"),
            LangId::zh_hans => reveal_strlit("打开文件…"),
            LangId::zh_hant => reveal_strlit("開啟檔案…"),
            LangId::vi => reveal_strlit("Mở tập tin…"),
            LangId::Count => {},
        },
        LocId::FileSave => match lang {
            LangId::en => reveal_strlit("Save"),
            LangId::de => reveal_strlit("Speichern"),
            LangId::es => reveal_strlit("Guardar"),
            LangId::fr => reveal_strlit("Enregistrer"),
            LangId::it => reveal_strlit("Salva"),
            LangId::ja => reveal_strlit("保存"),
            LangId::ko => reveal_strlit("저장"),
            LangId::pt_br => reveal_strlit("Salvar"),
            LangId::ru => reveal_strlit("Сохранить"),
            LangId::zh_hans => reveal_strlit("保存"),
            LangId::zh_hant => reveal_strlit("儲存"),
            LangId::vi => reveal_strlit("Lưu"),
            LangId::Count => {},
        },
        LocId::FileSaveAs => match lang {
            LangId::en => reveal_strlit("Save As…"),
            LangId::de => reveal_strlit("Speichern unter…"),
            LangId::es => reveal_strlit("Guardar como…"),
            LangId::fr => reveal_strlit("Enregistrer sous…"),
            LangId::it => reveal_strlit("Salva come…"),
            LangId::ja => reveal_strlit("名前を付けて保存…"),
            LangId::ko => reveal_strlit("다른 이름으로 저장…"),
            LangId::pt_br => reveal_strlit("Salvar como…"),
            LangId::ru => reveal_strlit("Сохранить как…"),
            LangId::zh_hans => reveal_strlit("另存为…"),
            LangId::zh_hant => reveal_strlit("另存新檔…"),
            LangId::vi => reveal_strlit("Lưu như…"),
            LangId::Count => {},
        },
        LocId::FileClose => match lang {
            LangId::en => reveal_strlit("Close Editor"),
            LangId::de => reveal_strlit("Editor schließen"),
            LangId::es => reveal_strlit("Cerrar editor"),
            LangId::fr => reveal_strlit("Fermer l'éditeur"),
            LangId::it => reveal_strlit("Chiudi editor"),
            LangId::ja => reveal_strlit("エディターを閉じる"),
            LangId::ko => reveal_strlit("편집기 닫기"),
            LangId::pt_br => reveal_strlit("Fechar editor"),
            LangId::ru => reveal_strlit("Закрыть редактор"),
            LangId::zh_hans => reveal_strlit("关闭编辑器"),
            LangId::zh_hant => reveal_strlit("關閉編輯器"),
            LangId::vi => reveal_strlit("Đóng editor"),
            LangId::Count => {},
        },
        LocId::FileExit => match lang {
            LangId::en => reveal_strlit("Exit"),
            LangId::de => reveal_strlit("Beenden"),
            LangId::es => reveal_strlit("Salir"),
            LangId::fr => reveal_strlit("Quitter"),
            LangId::it => reveal_strlit("Esci"),
            LangId::ja => reveal_strlit("終了"),
            LangId::ko => reveal_strlit("종료"),
            LangId::pt_br => reveal_strlit("Sair"),
            LangId::ru => reveal_strlit("Выход"),
            LangId::zh_hans => reveal_strlit("退出"),
            LangId::zh_hant => reveal_strlit("退出"),
            LangId::vi => reveal_strlit("Thoát"),
            LangId::Count => {},
        },
        LocId::Edit => match lang {
            LangId::en => reveal_strlit("Edit"),
            LangId::de => reveal_strlit("Bearbeiten"),
            LangId::es => reveal_strlit("Editar"),
            LangId::fr => reveal_strlit("Édition"),
            LangId::it => reveal_strlit("Modifica"),
            LangId::ja => reveal_strlit("編集"),
            LangId::ko => reveal_strlit("편집"),
            LangId::pt_br => reveal_strlit("Editar"),
            LangId::ru => reveal_strlit("Правка"),
            LangId::zh_hans => reveal_strlit("编辑"),
            LangId::zh_hant => reveal_strlit("編輯"),
            LangId::vi => reveal_strlit("Chỉnh sửa"),
            LangId::Count => {},
        },
        LocId::EditUndo => match lang {
            LangId::en => reveal_strlit("Undo"),
            LangId::de => reveal_strlit("Rückgängig"),
            LangId::es => reveal_strlit("Deshacer"),
            LangId::fr => reveal_strlit("Annuler"),
            LangId::it => reveal_strlit("Annulla"),
            LangId::ja => reveal_strlit("元に戻す"),
            LangId::ko => reveal_strlit("실행 취소"),
            LangId::pt_br => reveal_strlit("Desfazer"),
            LangId::ru => reveal_strlit("Отменить"),
            LangId::zh_hans => reveal_strlit("撤销"),
            LangId::zh_hant => reveal_strlit("復原"),
            LangId::vi => reveal_strlit("Hoàn tác"),
            LangId::Count => {},
        },
        LocId::EditRedo => match lang {
            LangId::en => reveal_strlit("Redo"),
            LangId::de => reveal_strlit("Wiederholen"),
            LangId::es => reveal_strlit("Rehacer"),
            LangId::fr => reveal_strlit("Rétablir"),
            LangId::it => reveal_strlit("Ripeti"),
            LangId::ja => reveal_strlit("やり直し"),
            LangId::ko => reveal_strlit("다시 실행"),
            LangId::pt_br => reveal_strlit("Refazer"),
            LangId::ru => reveal_strlit("Повторить"),
            LangId::zh_hans => reveal_strlit("重做"),
            LangId::zh_hant => reveal_strlit("重做"),
            LangId::vi => reveal_strlit("Thực hiện lại"),
            LangId::Count => {},
        },
        LocId::EditCut => match lang {
            LangId::en => reveal_strlit("Cut"),
            LangId::de => reveal_strlit("Ausschneiden"),
            LangId::es => reveal_strlit("Cortar"),
            LangId::fr => reveal_strlit("Couper"),
            LangId::it => reveal_strlit("Taglia"),
            LangId::ja => reveal_strlit("切り取り"),
            LangId::ko => reveal_strlit("잘라내기"),
            LangId::pt_br => reveal_strlit("Cortar"),
            LangId::ru => reveal_strlit("Вырезать"),
            LangId::zh_hans => reveal_strlit("剪切"),
            LangId::zh_hant => reveal_strlit("剪下"),
            LangId::vi => reveal_strlit("Cắt"),
            LangId::Count => {},
        },
        LocId::EditCopy => match lang {
            LangId::en => reveal_strlit("Copy"),
            LangId::de => reveal_strlit("Kopieren"),
            LangId::es => reveal_strlit("Copiar"),
            LangId::fr => reveal_strlit("Copier"),
            LangId::it => reveal_strlit("Copia"),
            LangId::ja => reveal_strlit("コピー"),
            LangId::ko => reveal_strlit("복사"),
            LangId::pt_br => reveal_strlit("Copiar"),
            LangId::ru => reveal_strlit("Копировать"),
            LangId::zh_hans => reveal_strlit("复制"),
            LangId::zh_hant => reveal_strlit("複製"),
            LangId::vi => reveal_strlit("Chép"),
            LangId::Count => {},
        },
        LocId::EditPaste => match lang {
            LangId::en => reveal_strlit("Paste"),
            LangId::de => reveal_strlit("Einfügen"),
            LangId::es => reveal_strlit("Pegar"),
            LangId::fr => reveal_strlit("Coller"),
            LangId::it => reveal_strlit("Incolla"),
            LangId::ja => reveal_strlit("貼り付け"),
            LangId::ko => reveal_strlit("붙여넣기"),
            LangId::pt_br => reveal_strlit("Colar"),
            LangId::ru => reveal_strlit("Вставить"),
            LangId::zh_hans => reveal_strlit("粘贴"),
            LangId::zh_hant => reveal_strlit("貼上"),
            LangId::vi => reveal_strlit("Dán"),
            LangId::Count => {},
        },
        LocId::EditFind => match lang {
            LangId::en => reveal_strlit("Find"),
            LangId::de => reveal_strlit("Suchen"),
            LangId::es => reveal_strlit("Buscar"),
            LangId::fr => reveal_strlit("Rechercher"),
            LangId::it => reveal_strlit("Trova"),
            LangId::ja => reveal_strlit("検索"),
            LangId::ko => reveal_strlit("찾기"),
            LangId::pt_br => reveal_strlit("Encontrar"),
            LangId::ru => reveal_strlit("Найти"),
            LangId::zh_hans => reveal_strlit("查找"),
            LangId::zh_hant => reveal_strlit("尋找"),
            LangId::vi => reveal_strlit("Tìm kiếm"),
            LangId::Count => {},
        },
        LocId::EditReplace => match lang {
            LangId::en => reveal_strlit("Replace"),
            LangId::de => reveal_strlit("Ersetzen"),
            LangId::es => reveal_strlit("Reemplazar"),
            LangId::fr => reveal_strlit("Remplacer"),
            LangId::it => reveal_strlit("Sostituisci"),
            LangId::ja => reveal_strlit("置換"),
            LangId::ko => reveal_strlit("바꾸기"),
            LangId::pt_br => reveal_strlit("Substituir"),
            LangId::ru => reveal_strlit("Заменить"),
            LangId::zh_hans => reveal_strlit("替换"),
            LangId::zh_hant => reveal_strlit("取代"),
            LangId::vi => reveal_strlit("Thay thế"),
            LangId::Count => {},
        },
        LocId::View => match lang {
            LangId::en => reveal_strlit("View"),
            LangId::de => reveal_strlit("Ansicht"),
            LangId::es => reveal_strlit("Ver"),
            LangId::fr => reveal_strlit("Affichage"),
            LangId::it => reveal_strlit("Visualizza"),
            LangId::ja => reveal_strlit("表示"),
            LangId::ko => reveal_strlit("보기"),
            LangId::pt_br => reveal_strlit("Exibir"),
            LangId::ru => reveal_strlit("Вид"),
            LangId::zh_hans => reveal_strlit("视图"),
            LangId::zh_hant => reveal_strlit("檢視"),
            LangId::vi => reveal_strlit("Xem"),
            LangId::Count => {},
        },
        LocId::ViewFocusStatusbar => match lang {
            LangId::en => reveal_strlit("Focus Statusbar"),
            LangId::de => reveal_strlit("Statusleiste fokussieren"),
            LangId::es => reveal_strlit("Enfocar barra de estado"),
            LangId::fr => reveal_strlit("Activer la barre d’état"),
            LangId::it => reveal_strlit("Attiva barra di stato"),
            LangId::ja => reveal_strlit("ステータスバーにフォーカス"),
            LangId::ko => reveal_strlit("상태 표시줄로 포커스 이동"),
            LangId::pt_br => reveal_strlit("Focar barra de status"),
            LangId::ru => reveal_strlit("Фокус на строку состояния"),
            LangId::zh_hans => reveal_strlit("聚焦状态栏"),
            LangId::zh_hant => reveal_strlit("聚焦狀態列"),
            LangId::vi => reveal_strlit("Vào thanh trạng thái"),
            LangId::Count => {},
        },
        LocId::ViewWordWrap => match lang {
            LangId::en => reveal_strlit("Word Wrap"),
            LangId::de => reveal_strlit("Zeilenumbruch"),
            LangId::es => reveal_strlit("Ajuste de línea"),
            LangId::fr => reveal_strlit("Retour à la ligne"),
            LangId::it => reveal_strlit("A capo automatico"),
            LangId::ja => reveal_strlit("折り返し"),
            LangId::ko => reveal_strlit("자동 줄 바꿈"),
            LangId::pt_br => reveal_strlit("Quebra de linha"),
            LangId::ru => reveal_strlit("Перенос слов"),
            LangId::zh_hans => reveal_strlit("自动换行"),
            LangId::zh_hant => reveal_strlit("自動換行"),
            LangId::vi => reveal_strlit("Ngắt dòng"),
            LangId::Count => {},
        },
        LocId::Help => match lang {
            LangId::en => reveal_strlit("Help"),
            LangId::de => reveal_strlit("Hilfe"),
            LangId::es => reveal_strlit("Ayuda"),
            LangId::fr => reveal_strlit("Aide"),
            LangId::it => reveal_strlit("Aiuto"),
            LangId::ja => reveal_strlit("ヘルプ"),
            LangId::ko => reveal_strlit("도움말"),
            LangId::pt_br => reveal_strlit("Ajuda"),
            LangId::ru => reveal_strlit("Помощь"),
            LangId::zh_hans => reveal_strlit("帮助"),
            LangId::zh_hant => reveal_strlit("幫助"),
            LangId::vi => reveal_strlit("Trợ giúp"),
            LangId::Count => {},
        },
        LocId::HelpAbout => match lang {
            LangId::en => reveal_strlit("About"),
            LangId::de => reveal_strlit("Über"),
            LangId::es => reveal_strlit("Acerca de"),
            LangId::fr => reveal_strlit("À propos"),
            LangId::it => reveal_strlit("Informazioni"),
            LangId::ja => reveal_strlit("情報"),
            LangId::ko => reveal_strlit("정보"),
            LangId::pt_br => reveal_strlit("Sobre"),
            LangId::ru => reveal_strlit("О программе"),
            LangId::zh_hans => reveal_strlit("关于"),
            LangId::zh_hant => reveal_strlit("關於"),
            LangId::vi => reveal_strlit("Giới thiệu"),
            LangId::Count => {},
        },
        LocId::UnsavedChangesDialogTitle => match lang {
            LangId::en => reveal_strlit("Unsaved Changes"),
            LangId::de => reveal_strlit("Ungespeicherte Änderungen"),
            LangId::es => reveal_strlit("Cambios sin guardar"),
            LangId::fr => reveal_strlit("Modifications non enregistrées"),
            LangId::it => reveal_strlit("Modifiche non salvate"),
            LangId::ja => reveal_strlit("未保存の変更"),
            LangId::ko => reveal_strlit("저장되지 않은 변경 사항"),
            LangId::pt_br => reveal_strlit("Alterações não salvas"),
            LangId::ru => reveal_strlit("Несохраненные изменения"),
            LangId::zh_hans => reveal_strlit("未保存的更改"),
            LangId::zh_hant => reveal_strlit("未儲存的變更"),
            LangId::vi => reveal_strlit("Thay đổi chưa được lưu"),
            LangId::Count => {},
        },
        LocId::UnsavedChangesDialogDescription => match lang {
            LangId::en => reveal_strlit("Do you want to save the changes you made?"),
            LangId::de => reveal_strlit("Möchten Sie die vorgenommenen Änderungen speichern?"),
            LangId::es => reveal_strlit("¿Desea guardar los cambios realizados?"),
            LangId::fr => reveal_strlit("Voulez-vous enregistrer les modifications apportées ?"),
            LangId::it => reveal_strlit("Vuoi salvare le modifiche apportate?"),
            LangId::ja => reveal_strlit("変更内容を保存しますか？"),
            LangId::ko => reveal_strlit("변경한 내용을 저장하시겠습니까?"),
            LangId::pt_br => reveal_strlit("Deseja salvar as alterações feitas?"),
            LangId::ru => reveal_strlit("Вы хотите сохранить внесённые изменения?"),
            LangId::zh_hans => reveal_strlit("您要保存所做的更改吗？"),
            LangId::zh_hant => reveal_strlit("您要保存所做的變更嗎？"),
            LangId::vi => reveal_strlit("Bạn có muôn lưu các thay đổi đã thực hiện?"),
            LangId::Count => {},
        },
        LocId::UnsavedChangesDialogYes => match lang {
            LangId::en => reveal_strlit("Save"),
            LangId::de => reveal_strlit("Speichern"),
            LangId::es => reveal_strlit("Guardar"),
            LangId::fr => reveal_strlit("Enregistrer"),
            LangId::it => reveal_strlit("Salva"),
            LangId::ja => reveal_strlit("保存"),
            LangId::ko => reveal_strlit("저장"),
            LangId::pt_br => reveal_strlit("Salvar"),
            LangId::ru => reveal_strlit("Сохранить"),
            LangId::zh_hans => reveal_strlit("保存"),
            LangId::zh_hant => reveal_strlit("儲存"),
            LangId::vi => reveal_strlit("Lưu"),
            LangId::Count => {},
        },
        LocId::UnsavedChangesDialogNo => match lang {
            LangId::en => reveal_strlit("Don't Save"),
            LangId::de => reveal_strlit("Nicht speichern"),
            LangId::es => reveal_strlit("No guardar"),
            LangId::fr => reveal_strlit("Ne pas enregistrer"),
            LangId::it => reveal_strlit("Non salvare"),
            LangId::ja => reveal_strlit("保存しない"),
            LangId::ko => reveal_strlit("저장 안 함"),
            LangId::pt_br => reveal_strlit("Não salvar"),
            LangId::ru => reveal_strlit("Не сохранять"),
            LangId::zh_hans => reveal_strlit("不保存"),
            LangId::zh_hant => reveal_strlit("不儲存"),
            LangId::vi => reveal_strlit("Không lưu"),
            LangId::Count => {},
        },
        LocId::AboutDialogTitle => match lang {
            LangId::en => reveal_strlit("About"),
            LangId::de => reveal_strlit("Über"),
            LangId::es => reveal_strlit("Acerca de"),
            LangId::fr => reveal_strlit("À propos"),
            LangId::it => reveal_strlit("Informazioni"),
            LangId::ja => reveal_strlit("情報"),
            LangId::ko => reveal_strlit("정보"),
            LangId::pt_br => reveal_strlit("Sobre"),
            LangId::ru => reveal_strlit("О программе"),
            LangId::zh_hans => reveal_strlit("关于"),
            LangId::zh_hant => reveal_strlit("關於"),
            LangId::vi => reveal_strlit("Giới thiệu"),
            LangId::Count => {},
        },
        LocId::AboutDialogVersion => match lang {
            LangId::en => reveal_strlit("Version: "),
            LangId::de => reveal_strlit("Version: "),
            LangId::es => reveal_strlit("Versión: "),
            LangId::fr => reveal_strlit("Version : "),
            LangId::it => reveal_strlit("Versione: "),
            LangId::ja => reveal_strlit("バージョン: "),
            LangId::ko => reveal_strlit("버전: "),
            LangId::pt_br => reveal_strlit("Versão: "),
            LangId::ru => reveal_strlit("Версия: "),
            LangId::zh_hans => reveal_strlit("版本: "),
            LangId::zh_hant => reveal_strlit("版本: "),
            LangId::vi => reveal_strlit("Phiên bản: "),
            LangId::Count => {},
        },
        LocId::LargeClipboardWarningLine1 => match lang {
            LangId::en => reveal_strlit("Text you copy is shared with the terminal clipboard."),
            LangId::de => reveal_strlit("Der kopierte Text wird mit der Terminal-Zwischenablage geteilt."),
            LangId::es => reveal_strlit("El texto que copies se comparte con el portapapeles del terminal."),
            LangId::fr => reveal_strlit("Le texte que vous copiez est partagé avec le presse-papiers du terminal."),
            LangId::it => reveal_strlit("Il testo copiato viene condiviso con gli appunti del terminale."),
            LangId::ja => reveal_strlit("コピーしたテキストはターミナルのクリップボードと共有されます。"),
            LangId::ko => reveal_strlit("복사한 텍스트가 터미널 클립보드와 공유됩니다."),
            LangId::pt_br => reveal_strlit("O texto copiado é compartilhado com a área de transferência do terminal."),
            LangId::ru => reveal_strlit("Скопированный текст передаётся в буфер обмена терминала."),
            LangId::zh_hans => reveal_strlit("你复制的文本将共享到终端剪贴板。"),
            LangId::zh_hant => reveal_strlit("您複製的文字將會與終端機剪貼簿分享。"),
            LangId::vi => reveal_strlit("Văn bản sao chép được chia sẻ với clipboard của hộp lệnh terminal."),
            LangId::Count => {},
        },
        LocId::LargeClipboardWarningLine2 => match lang {
            LangId::en => reveal_strlit("You copied {size} which may take a long time to share."),
            LangId::de => reveal_strlit("Sie haben {size} kopiert, das Weitergeben könnte lange dauern."),
            LangId::es => reveal_strlit("Copiaste {size}, lo que puede tardar en compartirse."),
            LangId::fr => reveal_strlit("Vous avez copié {size}, ce qui peut être long à partager."),
            LangId::it => reveal_strlit("Hai copiato {size}, potrebbe richiedere molto tempo per condividerlo."),
            LangId::ja => reveal_strlit("{size} をコピーしました。共有に時間がかかる可能性があります。"),
            LangId::ko => reveal_strlit("{size}를 복사했습니다. 공유하는 데 시간이 오래 걸릴 수 있습니다."),
            LangId::pt_br => reveal_strlit("Você copiou {size}, o que pode demorar para compartilhar."),
            LangId::ru => reveal_strlit("Вы скопировали {size}; передача может занять много времени."),
            LangId::zh_hans => reveal_strlit("你复制了 {size}，共享可能需要较长时间。"),
            LangId::zh_hant => reveal_strlit("您已複製 {size}，共享可能需要較長時間。"),
            LangId::vi => reveal_strlit("Bạn đã sao chép {size}, có thể mất một lúc để chia sẻ."),
            LangId::Count => {},
        },
        LocId::LargeClipboardWarningLine3 => match lang {
            LangId::en => reveal_strlit("Do you want to send it anyway?"),
            LangId::de => reveal_strlit("Möchten Sie es trotzdem senden?"),
            LangId::es => reveal_strlit("¿Desea enviarlo de todas formas?"),
            LangId::fr => reveal_strlit("Voulez-vous quand même l’envoyer?"),
            LangId::it => reveal_strlit("Vuoi inviarlo comunque?"),
            LangId::ja => reveal_strlit("それでも送信しますか？"),
            LangId::ko => reveal_strlit("그래도 전송하시겠습니까?"),
            LangId::pt_br => reveal_strlit("Deseja enviar mesmo assim?"),
            LangId::ru => reveal_strlit("Отправить в любом случае?"),
            LangId::zh_hans => reveal_strlit("仍要发送吗？"),
            LangId::zh_hant => reveal_strlit("仍要傳送嗎？"),
            LangId::vi => reveal_strlit("Bạn có muốn tiếp tục gửi đi không?"),
            LangId::Count => {},
        },
        LocId::SuperLargeClipboardWarning => match lang {
            LangId::en => reveal_strlit("The text you copied is too large to be shared."),
            LangId::de => reveal_strlit("Der kopierte Text ist zu groß, um geteilt zu werden."),
            LangId::es => reveal_strlit("El texto que copiaste es demasiado grande para compartirse."),
            LangId::fr => reveal_strlit("Le texte que vous avez copié est trop volumineux pour être partagé."),
            LangId::it => reveal_strlit("Il testo copiato è troppo grande per essere condiviso."),
            LangId::ja => reveal_strlit("コピーしたテキストは大きすぎて共有できません。"),
            LangId::ko => reveal_strlit("복사한 텍스트가 너무 커서 공유할 수 없습니다."),
            LangId::pt_br => reveal_strlit("O texto copiado é grande demais para ser compartilhado."),
            LangId::ru => reveal_strlit("Скопированный текст слишком велик для передачи."),
            LangId::zh_hans => reveal_strlit("你复制的文本过大，无法共享。"),
            LangId::zh_hant => reveal_strlit("您複製的文字過大，無法分享。"),
            LangId::vi => reveal_strlit("Văn bản sao chép quá lớn để chia sẻ."),
            LangId::Count => {},
        },
        LocId::WarningDialogTitle => match lang {
            LangId::en => reveal_strlit("Warning"),
            LangId::de => reveal_strlit("Warnung"),
            LangId::es => reveal_strlit("Advertencia"),
            LangId::fr => reveal_strlit("Avertissement"),
            LangId::it => reveal_strlit("Avviso"),
            LangId::ja => reveal_strlit("警告"),
            LangId::ko => reveal_strlit("경고"),
            LangId::pt_br => reveal_strlit("Aviso"),
            LangId::ru => reveal_strlit("Предупреждение"),
            LangId::zh_hans => reveal_strlit("警告"),
            LangId::zh_hant => reveal_strlit("警告"),
            LangId::vi => reveal_strlit("Cảnh báo"),
            LangId::Count => {},
        },
        LocId::ErrorDialogTitle => match lang {
            LangId::en => reveal_strlit("Error"),
            LangId::de => reveal_strlit("Fehler"),
            LangId::es => reveal_strlit("Error"),
            LangId::fr => reveal_strlit("Erreur"),
            LangId::it => reveal_strlit("Errore"),
            LangId::ja => reveal_strlit("エラー"),
            LangId::ko => reveal_strlit("오류"),
            LangId::pt_br => reveal_strlit("Erro"),
            LangId::ru => reveal_strlit("Ошибка"),
            LangId::zh_hans => reveal_strlit("错误"),
            LangId::zh_hant => reveal_strlit("錯誤"),
            LangId::vi => reveal_strlit("Lỗi"),
            LangId::Count => {},
        },
        LocId::ErrorIcuMissing => match lang {
            LangId::en => reveal_strlit("This operation requires the ICU library"),
            LangId::de => reveal_strlit("Diese Operation erfordert die ICU-Bibliothek"),
            LangId::es => reveal_strlit("Esta operación requiere la biblioteca ICU"),
            LangId::fr => reveal_strlit("Cette opération nécessite la bibliothèque ICU"),
            LangId::it => reveal_strlit("Questa operazione richiede la libreria ICU"),
            LangId::ja => reveal_strlit("この操作にはICUライブラリが必要です"),
            LangId::ko => reveal_strlit("이 작업에는 ICU 라이브러리가 필요합니다"),
            LangId::pt_br => reveal_strlit("Esta operação requer a biblioteca ICU"),
            LangId::ru => reveal_strlit("Эта операция требует наличия библиотеки ICU"),
            LangId::zh_hans => reveal_strlit("此操作需要 ICU 库"),
            LangId::zh_hant => reveal_strlit("此操作需要 ICU 庫"),
            LangId::vi => reveal_strlit("Thao tác này yêu cầu sử dụng thư viện ICU."),
            LangId::Count => {},
        },
        LocId::SearchNeedleLabel => match lang {
            LangId::en => reveal_strlit("Find:"),
            LangId::de => reveal_strlit("Suchen:"),
            LangId::es => reveal_strlit("Buscar:"),
            LangId::fr => reveal_strlit("Rechercher :"),
            LangId::it => reveal_strlit("Trova:"),
            LangId::ja => reveal_strlit("検索:"),
            LangId::ko => reveal_strlit("찾기:"),
            LangId::pt_br => reveal_strlit("Encontrar:"),
            LangId::ru => reveal_strlit("Найти:"),
            LangId::zh_hans => reveal_strlit("查找:"),
            LangId::zh_hant => reveal_strlit("尋找:"),
            LangId::vi => reveal_strlit("Tìm kiếm:"),
            LangId::Count => {},
        },
        LocId::SearchReplacementLabel => match lang {
            LangId::en => reveal_strlit("Replace:"),
            LangId::de => reveal_strlit("Ersetzen:"),
            LangId::es => reveal_strlit("Reemplazar:"),
            LangId::fr => reveal_strlit("Remplacer :"),
            LangId::it => reveal_strlit("Sostituire:"),
            LangId::ja => reveal_strlit("置換:"),
            LangId::ko => reveal_strlit("바꾸기:"),
            LangId::pt_br => reveal_strlit("Substituir:"),
            LangId::ru => reveal_strlit("Замена:"),
            LangId::zh_hans => reveal_strlit("替换:"),
            LangId::zh_hant => reveal_strlit("替換:"),
            LangId::vi => reveal_strlit("Thay thế:"),
            LangId::Count => {},
        },
        LocId::SearchMatchCase => match lang {
            LangId::en => reveal_strlit("Match Case"),
            LangId::de => reveal_strlit("Groß/Klein"),
            LangId::es => reveal_strlit("May/Min"),
            LangId::fr => reveal_strlit("Casse"),
            LangId::it => reveal_strlit("Maius/minus"),
            LangId::ja => reveal_strlit("大/小文字"),
            LangId::ko => reveal_strlit("대소문자"),
            LangId::pt_br => reveal_strlit("Maius/minus"),
            LangId::ru => reveal_strlit("Регистр"),
            LangId::zh_hans => reveal_strlit("区分大小写"),
            LangId::zh_hant => reveal_strlit("區分大小寫"),
            LangId::vi => reveal_strlit("Khớp HOA/thường:"),
            LangId::Count => {},
        },
        LocId::SearchWholeWord => match lang {
            LangId::en => reveal_strlit("Whole Word"),
            LangId::de => reveal_strlit("Ganzes Wort"),
            LangId::es => reveal_strlit("Palabra"),
            LangId::fr => reveal_strlit("Mot entier"),
            LangId::it => reveal_strlit("Parola"),
            LangId::ja => reveal_strlit("単語単位"),
            LangId::ko => reveal_strlit("전체 단어"),
            LangId::pt_br => reveal_strlit("Palavra"),
            LangId::ru => reveal_strlit("Слово"),
            LangId::zh_hans => reveal_strlit("全字匹配"),
            LangId::zh_hant => reveal_strlit("全字匹配"),
            LangId::vi => reveal_strlit("Toàn bộ từ"),
            LangId::Count => {},
        },
        LocId::SearchUseRegex => match lang {
            LangId::en => reveal_strlit("Use Regex"),
            LangId::de => reveal_strlit("RegEx"),
            LangId::es => reveal_strlit("RegEx"),
            LangId::fr => reveal_strlit("RegEx"),
            LangId::it => reveal_strlit("RegEx"),
            LangId::ja => reveal_strlit("正規表現"),
            LangId::ko => reveal_strlit("정규식"),
            LangId::pt_br => reveal_strlit("RegEx"),
            LangId::ru => reveal_strlit("RegEx"),
            LangId::zh_hans => reveal_strlit("正则"),
            LangId::zh_hant => reveal_strlit("正則"),
            LangId::vi => reveal_strlit("Dùng Regex"),
            LangId::Count => {},
        },
        LocId::SearchReplaceAll => match lang {
            LangId::en => reveal_strlit("Replace All"),
            LangId::de => reveal_strlit("Alle ersetzen"),
            LangId::es => reveal_strlit("Reemplazar todo"),
            LangId::fr => reveal_strlit("Remplacer tout"),
            LangId::it => reveal_strlit("Sostituisci tutto"),
            LangId::ja => reveal_strlit("すべて置換"),
            LangId::ko => reveal_strlit("모두 바꾸기"),
            LangId::pt_br => reveal_strlit("Substituir tudo"),
            LangId::ru => reveal_strlit("Заменить все"),
            LangId::zh_hans => reveal_strlit("全部替换"),
            LangId::zh_hant => reveal_strlit("全部取代"),
            LangId::vi => reveal_strlit("Thay thế hết"),
            LangId::Count => {},
        },
        LocId::SearchClose => match lang {
            LangId::en => reveal_strlit("Close"),
            LangId::de => reveal_strlit("Schließen"),
            LangId::es => reveal_strlit("Cerrar"),
            LangId::fr => reveal_strlit("Fermer"),
            LangId::it => reveal_strlit("Chiudi"),
            LangId::ja => reveal_strlit("閉じる"),
            LangId::ko => reveal_strlit("닫기"),
            LangId::pt_br => reveal_strlit("Fechar"),
            LangId::ru => reveal_strlit("Закрыть"),
            LangId::zh_hans => reveal_strlit("关闭"),
            LangId::zh_hant => reveal_strlit("關閉"),
            LangId::vi => reveal_strlit("Đóng"),
            LangId::Count => {},
        },
        LocId::EncodingReopen => match lang {
            LangId::en => reveal_strlit("Reopen with encoding"),
            LangId::de => reveal_strlit("Mit Kodierung erneut öffnen"),
            LangId::es => reveal_strlit("Reabrir con codificación"),
            LangId::fr => reveal_strlit("Rouvrir avec un encodage différent"),
            LangId::it => reveal_strlit("Riapri con codifica"),
            LangId::ja => reveal_strlit("エンコーディングで再度開く"),
            LangId::ko => reveal_strlit("인코딩으로 다시 열기"),
            LangId::pt_br => reveal_strlit("Reabrir com codificação"),
            LangId::ru => reveal_strlit("Открыть снова с кодировкой"),
            LangId::zh_hans => reveal_strlit("使用编码重新打开"),
            LangId::zh_hant => reveal_strlit("使用編碼重新打開"),
            LangId::vi => reveal_strlit("Mở lại với bộ mã hoá"),
            LangId::Count => {},
        },
        LocId::EncodingConvert => match lang {
            LangId::en => reveal_strlit("Convert to encoding"),
            LangId::de => reveal_strlit("In Kodierung konvertieren"),
            LangId::es => reveal_strlit("Convertir a otra codificación"),
            LangId::fr => reveal_strlit("Convertir en encodage"),
            LangId::it => reveal_strlit("Converti in codifica"),
            LangId::ja => reveal_strlit("エンコーディングに変換"),
            LangId::ko => reveal_strlit("인코딩으로 변환"),
            LangId::pt_br => reveal_strlit("Converter para codificação"),
            LangId::ru => reveal_strlit("Преобразовать в кодировку"),
            LangId::zh_hans => reveal_strlit("转换为编码"),
            LangId::zh_hant => reveal_strlit("轉換為編碼"),
            LangId::vi => reveal_strlit("Chuyển sang bộ mã hoá"),
            LangId::Count => {},
        },
        LocId::IndentationTabs => match lang {
            LangId::en => reveal_strlit("Tabs"),
            LangId::de => reveal_strlit("Tabs"),
            LangId::es => reveal_strlit("Tabulaciones"),
            LangId::fr => reveal_strlit("Tabulations"),
            LangId::it => reveal_strlit("Tabulazioni"),
            LangId::ja => reveal_strlit("タブ"),
            LangId::ko => reveal_strlit("탭"),
            LangId::pt_br => reveal_strlit("Tabulações"),
            LangId::ru => reveal_strlit("Табы"),
            LangId::zh_hans => reveal_strlit("制表符"),
            LangId::zh_hant => reveal_strlit("製表符"),
            LangId::vi => reveal_strlit("Dấu tab"),
            LangId::Count => {},
        },
        LocId::IndentationSpaces => match lang {
            LangId::en => reveal_strlit("Spaces"),
            LangId::de => reveal_strlit("Leerzeichen"),
            LangId::es => reveal_strlit("Espacios"),
            LangId::fr => reveal_strlit("Espaces"),
            LangId::it => reveal_strlit("Spazi"),
            LangId::ja => reveal_strlit("スペース"),
            LangId::ko => reveal_strlit("공백"),
            LangId::pt_br => reveal_strlit("Espaços"),
            LangId::ru => reveal_strlit("Пробелы"),
            LangId::zh_hans => reveal_strlit("空格"),
            LangId::zh_hant => reveal_strlit("空格"),
            LangId::vi => reveal_strlit("Dấu cách"),
            LangId::Count => {},
        },
        LocId::SaveAsDialogPathLabel => match lang {
            LangId::en => reveal_strlit("Folder:"),
            LangId::de => reveal_strlit("Ordner:"),
            LangId::es => reveal_strlit("Carpeta:"),
            LangId::fr => reveal_strlit("Dossier :"),
            LangId::it => reveal_strlit("Cartella:"),
            LangId::ja => reveal_strlit("フォルダ:"),
            LangId::ko => reveal_strlit("폴더:"),
            LangId::pt_br => reveal_strlit("Pasta:"),
            LangId::ru => reveal_strlit("Папка:"),
            LangId::zh_hans => reveal_strlit("文件夹:"),
            LangId::zh_hant => reveal_strlit("資料夾:"),
            LangId::vi => reveal_strlit("Thư mục:"),
            LangId::Count => {},
        },
        LocId::SaveAsDialogNameLabel => match lang {
            LangId::en => reveal_strlit("File name:"),
            LangId::de => reveal_strlit("Dateiname:"),
            LangId::es => reveal_strlit("Nombre de archivo:"),
            LangId::fr => reveal_strlit("Nom de fichier :"),
            LangId::it => reveal_strlit("Nome del file:"),
            LangId::ja => reveal_strlit("ファイル名:"),
            LangId::ko => reveal_strlit("파일 이름:"),
            LangId::pt_br => reveal_strlit("Nome do arquivo:"),
            LangId::ru => reveal_strlit("Имя файла:"),
            LangId::zh_hans => reveal_strlit("文件名:"),
            LangId::zh_hant => reveal_strlit("檔案名稱:"),
            LangId::vi => reveal_strlit("Tên tập tin:"),
            LangId::Count => {},
        },
        LocId::FileOverwriteWarning => match lang {
            LangId::en => reveal_strlit("Confirm Save As"),
            LangId::de => reveal_strlit("Speichern unter bestätigen"),
            LangId::es => reveal_strlit("Confirmar Guardar como"),
            LangId::fr => reveal_strlit("Confirmer Enregistrer sous"),
            LangId::it => reveal_strlit("Conferma Salva con nome"),
            LangId::ja => reveal_strlit("名前を付けて保存の確認"),
            LangId::ko => reveal_strlit("다른 이름으로 저장 확인"),
            LangId::pt_br => reveal_strlit("Confirmar Salvar como"),
            LangId::ru => reveal_strlit("Подтвердите «Сохранить как…»"),
            LangId::zh_hans => reveal_strlit("确认另存为"),
            LangId::zh_hant => reveal_strlit("確認另存新檔"),
            LangId::vi => reveal_strlit("Xác nhận Lưu như"),
            LangId::Count => {},
        },
        LocId::FileOverwriteWarningDescription => match lang {
            LangId::en => reveal_strlit("File already exists. Do you want to overwrite it?"),
            LangId::de => reveal_strlit("Datei existiert bereits. Möchten Sie sie überschreiben?"),
            LangId::es => reveal_strlit("El archivo ya existe. ¿Desea sobrescribirlo?"),
            LangId::fr => reveal_strlit("Le fichier existe déjà. Voulez-vous l’écraser?"),
            LangId::it => reveal_strlit("Il file esiste già. Vuoi sovrascriverlo?"),
            LangId::ja => reveal_strlit("ファイルは既に存在します。上書きしますか？"),
            LangId::ko => reveal_strlit("파일이 이미 존재합니다. 덮어쓰시겠습니까?"),
            LangId::pt_br => reveal_strlit("O arquivo já existe. Deseja sobrescrevê-lo?"),
            LangId::ru => reveal_strlit("Файл уже существует. Перезаписать?"),
            LangId::zh_hans => reveal_strlit("文件已存在。要覆盖它吗？"),
            LangId::zh_hant => reveal_strlit("檔案已存在。要覆蓋它嗎？"),
            LangId::vi => reveal_strlit("Tập tin đã tồn tại. Bạn có muốn ghi đè nó không?"),
            LangId::Count => {},
        },
        LocId::Count => {},
    }
}

} // verus!
