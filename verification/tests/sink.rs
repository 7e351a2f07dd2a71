use sws::writer::{CsvTerminator, CsvWriterConfig, Terminator, WriterSettings};

fn builder(settings: &WriterSettings) -> csv::WriterBuilder {
    let mut builder = csv::WriterBuilder::new();
    builder.delimiter(settings.delimiter);
    builder.terminator(match settings.terminator {
        Terminator::CRLF => csv::Terminator::CRLF,
        Terminator::Any(b) => csv::Terminator::Any(b),
    });
    builder.flexible(settings.flexible);
    builder.double_quote(settings.double_quote);
    if let Some(escape) = settings.escape {
        builder.escape(escape);
    }
    builder
}

fn write(settings: &WriterSettings, records: &[Vec<String>]) -> Result<Vec<u8>, csv::Error> {
    let mut writer = builder(settings).from_writer(Vec::new());
    for record in records {
        writer.write_record(record.iter())?;
    }
    Ok(writer.into_inner().unwrap())
}

fn read(settings: &WriterSettings, bytes: &[u8]) -> Vec<Vec<Vec<u8>>> {
    let mut reader = csv::ReaderBuilder::new();
    reader.has_headers(false);
    reader.delimiter(settings.delimiter);
    reader.flexible(true);
    reader.double_quote(settings.double_quote);
    reader.escape(settings.escape);
    if let Terminator::Any(b) = settings.terminator {
        reader.terminator(csv::Terminator::Any(b));
    }
    reader
        .from_reader(bytes)
        .byte_records()
        .map(|r| r.unwrap().iter().map(|f| f.to_vec()).collect())
        .collect()
}

fn record(fields: &[&str]) -> Vec<String> {
    fields.iter().map(|f| f.to_string()).collect()
}

#[test]
fn records_come_back_in_the_same_byte_form() {
    let settings = CsvWriterConfig::default().settings();
    let records = vec![
        record(&["https://example.com/a?b=1,2", "plain"]),
        record(&["with \"quotes\"", "two\nlines"]),
        record(&["tr\u{E8}s bien \u{1F600}", " padded "]),
        record(&["a", ""]),
    ];
    let bytes = write(&settings, &records).unwrap();
    let back = read(&settings, &bytes);
    let sent: Vec<Vec<Vec<u8>>> = records
        .iter()
        .map(|r| r.iter().map(|f| f.as_bytes().to_vec()).collect())
        .collect();
    assert_eq!(sent, back);
}

#[test]
fn default_dialect_bytes() {
    let settings = CsvWriterConfig::default().settings();
    let bytes = write(&settings, &[record(&["a", "b,c", "d\"e"])]).unwrap();
    assert_eq!(b"a,\"b,c\",\"d\"\"e\"\n".to_vec(), bytes);
}

#[test]
fn escape_and_terminator_are_applied() {
    let config = CsvWriterConfig {
        delimiter: ';',
        escape: Some('\\'),
        flexible: true,
        terminator: CsvTerminator::CRLF,
    };
    let bytes = write(&config.settings(), &[record(&["a;b", "c\"d"]), record(&["e"])]).unwrap();
    assert_eq!(b"\"a;b\";\"c\\\"d\"\r\ne\r\n".to_vec(), bytes);
}

#[test]
fn records_of_unequal_length_need_the_flexible_setting() {
    let strict = CsvWriterConfig::default().settings();
    assert!(write(&strict, &[record(&["a", "b"]), record(&["c"])]).is_err());
    let flexible = CsvWriterConfig { flexible: true, ..CsvWriterConfig::default() }.settings();
    assert_eq!(
        b"a,b\nc\n".to_vec(),
        write(&flexible, &[record(&["a", "b"]), record(&["c"])]).unwrap()
    );
}
