use contact_store::csv::{
    csv_filter, export_csv, import_csv, CsvResult, Dialog, ExportPick, ExportStep, ExportWrite,
    FileFilter, ImportPick, ImportRead, ImportStep, Pick,
};
use contact_store::error::{ErrorKind, StoreError};
use std::path::PathBuf;

fn io(message: &str) -> StoreError {
    StoreError { kind: ErrorKind::Io, message: message.to_string() }
}

#[test]
fn filter_is_csv_only() {
    assert_eq!(
        csv_filter(),
        FileFilter { name: "CSV".to_string(), extensions: vec!["csv".to_string()] }
    );
}

#[test]
fn import_asks_for_the_dialog_first() {
    assert_eq!(import_csv(), ImportPick { dialog: Dialog::OpenFile, filter: csv_filter() });
}

#[test]
fn import_canceled_is_success_without_content() {
    assert_eq!(
        import_csv().picked(Pick::Canceled),
        ImportStep::Done(Ok(CsvResult { canceled: true, content: String::new() }))
    );
}

#[test]
fn import_reads_the_chosen_file() {
    let path = PathBuf::from("/home/al/people.csv");
    assert_eq!(
        import_csv().picked(Pick::File(path.clone())),
        ImportStep::Read(ImportRead { path })
    );
}

#[test]
fn import_fails_on_a_choice_without_a_path() {
    assert_eq!(
        import_csv().picked(Pick::Unresolved("URL is not a valid path".to_string())),
        ImportStep::Done(Err(io("URL is not a valid path")))
    );
}

#[test]
fn import_gives_the_text_as_read() {
    let read = ImportRead { path: PathBuf::from("people.csv") };
    assert_eq!(
        read.read(Ok("name,nick\r\n\"Al\",Z\n\n".to_string())),
        Ok(CsvResult { canceled: false, content: "name,nick\r\n\"Al\",Z\n\n".to_string() })
    );
}

#[test]
fn import_of_an_empty_file_is_not_canceled() {
    let read = ImportRead { path: PathBuf::from("empty.csv") };
    assert_eq!(
        read.read(Ok(String::new())),
        Ok(CsvResult { canceled: false, content: String::new() })
    );
}

#[test]
fn import_takes_any_text() {
    let read = ImportRead { path: PathBuf::from("odd.csv") };
    assert_eq!(
        read.read(Ok("\"unclosed,,,\n{{{".to_string())),
        Ok(CsvResult { canceled: false, content: "\"unclosed,,,\n{{{".to_string() })
    );
}

#[test]
fn import_fails_when_the_file_cannot_be_read() {
    let read = ImportRead { path: PathBuf::from("gone.csv") };
    assert_eq!(
        read.read(Err("No such file or directory (os error 2)".to_string())),
        Err(io("No such file or directory (os error 2)"))
    );
}

#[test]
fn export_asks_for_the_dialog_first() {
    assert_eq!(
        export_csv("a,b\n1,2\n".to_string()),
        ExportPick {
            dialog: Dialog::SaveFile,
            filter: csv_filter(),
            csv: "a,b\n1,2\n".to_string(),
        }
    );
}

#[test]
fn export_canceled_is_success_without_a_write() {
    assert_eq!(
        export_csv("a,b\n1,2\n".to_string()).picked(Pick::Canceled),
        ExportStep::Done(Ok(()))
    );
}

#[test]
fn export_writes_the_text_verbatim() {
    let path = PathBuf::from("/home/al/out.csv");
    let step = export_csv("a,b\n1,2\n".to_string()).picked(Pick::File(path.clone()));
    assert_eq!(step, ExportStep::Write(ExportWrite { path, text: "a,b\n1,2\n".to_string() }));
}

#[test]
fn export_keeps_text_without_a_final_newline() {
    let path = PathBuf::from("out.csv");
    match export_csv("a,b\r\n1,2".to_string()).picked(Pick::File(path)) {
        ExportStep::Write(write) => assert_eq!(write.text, "a,b\r\n1,2"),
        ExportStep::Done(done) => panic!("ended with {:?}", done),
    }
}

#[test]
fn export_of_empty_text_still_writes() {
    let path = PathBuf::from("out.csv");
    assert_eq!(
        export_csv(String::new()).picked(Pick::File(path.clone())),
        ExportStep::Write(ExportWrite { path, text: String::new() })
    );
}

#[test]
fn export_fails_on_a_choice_without_a_path() {
    assert_eq!(
        export_csv("a\n".to_string()).picked(Pick::Unresolved("URL is not a valid path".to_string())),
        ExportStep::Done(Err(io("URL is not a valid path")))
    );
}

#[test]
fn export_ends_with_what_the_write_gave() {
    let write = ExportWrite { path: PathBuf::from("out.csv"), text: "a\n".to_string() };
    assert_eq!(write.written(Ok(())), Ok(()));
    let write = ExportWrite { path: PathBuf::from("out.csv"), text: "a\n".to_string() };
    assert_eq!(
        write.written(Err("Permission denied (os error 13)".to_string())),
        Err(io("Permission denied (os error 13)"))
    );
}
