use defmt_decoder::Table;
use embedded_ci::elf::{ElfSection, ElfSymbol, ElfContents, ElfFault, ImportantSection, introspect};
use embedded_ci::ident::{ProbeSerial, TargetName};
use embedded_ci::logs::{
    detect_log_type, log_to_string, render_steps, DecodeStep, LogFrame, LogLevel, RttType,
};
use embedded_ci::machine::{CoreState, ProbeAction, ProbeEvent, RunnerError};
use embedded_ci::runner::Runner;

fn le32(out: &mut Vec<u8>, v: u32) {
    out.extend_from_slice(&v.to_le_bytes());
}

fn le16(out: &mut Vec<u8>, v: u16) {
    out.extend_from_slice(&v.to_le_bytes());
}

fn intern(table: &mut Vec<u8>, name: &str) -> u32 {
    let at = table.len() as u32;
    table.extend_from_slice(name.as_bytes());
    table.push(0);
    at
}

/// A 32-bit little-endian ELF file for ARM with the given sections (name,
/// address, octets) and symbols (name, address, number of the section among
/// those given).
fn elf_image(sections: &[(&str, u32, Vec<u8>)], symbols: &[(&str, u32, u16)]) -> Vec<u8> {
    let mut shstrtab = vec![0u8];
    let mut strtab = vec![0u8];
    let mut symtab = vec![0u8; 16];
    for (name, address, section) in symbols {
        let name_at = intern(&mut strtab, name);
        le32(&mut symtab, name_at);
        le32(&mut symtab, *address);
        le32(&mut symtab, 0);
        symtab.push(0x12);
        symtab.push(0);
        le16(&mut symtab, section + 1);
    }
    let mut body: Vec<u8> = Vec::new();
    let mut headers: Vec<[u32; 10]> = vec![[0; 10]];
    let base = 52u32;
    for (name, address, data) in sections {
        let name_at = intern(&mut shstrtab, name);
        let offset = base + body.len() as u32;
        body.extend_from_slice(data);
        headers.push([name_at, 1, 2, *address, offset, data.len() as u32, 0, 0, 1, 0]);
    }
    let symtab_index = headers.len() as u32;
    let name_at = intern(&mut shstrtab, ".symtab");
    let offset = base + body.len() as u32;
    body.extend_from_slice(&symtab);
    headers.push([name_at, 2, 0, 0, offset, symtab.len() as u32, symtab_index + 1, 1, 4, 16]);
    let name_at = intern(&mut shstrtab, ".strtab");
    let offset = base + body.len() as u32;
    body.extend_from_slice(&strtab);
    headers.push([name_at, 3, 0, 0, offset, strtab.len() as u32, 0, 0, 1, 0]);
    let name_at = intern(&mut shstrtab, ".shstrtab");
    let offset = base + body.len() as u32;
    let size = shstrtab.len() as u32;
    body.extend_from_slice(&shstrtab);
    headers.push([name_at, 3, 0, 0, offset, size, 0, 0, 1, 0]);
    while body.len() % 4 != 0 {
        body.push(0);
    }
    let mut out = vec![0x7f, b'E', b'L', b'F', 1, 1, 1, 0, 0, 0, 0, 0, 0, 0, 0, 0];
    le16(&mut out, 2);
    le16(&mut out, 40);
    le32(&mut out, 1);
    le32(&mut out, 0);
    le32(&mut out, 0);
    le32(&mut out, base + body.len() as u32);
    le32(&mut out, 0);
    le16(&mut out, 52);
    le16(&mut out, 32);
    le16(&mut out, 0);
    le16(&mut out, 40);
    le16(&mut out, headers.len() as u16);
    le16(&mut out, headers.len() as u16 - 1);
    out.extend_from_slice(&body);
    for header in headers {
        for word in header {
            le32(&mut out, word);
        }
    }
    out
}

fn vector_table(stack_pointer: u32, reset: u32, hardfault: u32) -> Vec<u8> {
    let mut data = Vec::new();
    for word in [stack_pointer, reset, 0xdead_beef, hardfault] {
        le32(&mut data, word);
    }
    data
}

fn flash_image() -> Vec<u8> {
    elf_image(
        &[
            (".vector_table", 0x0800_0000, vector_table(0x2000_8000, 0x0800_0101, 0x0800_0203)),
            (".text", 0x0800_0100, vec![0; 8]),
        ],
        &[("main", 0x0800_0151, 1), ("_SEGGER_RTT", 0x2000_0010, 1)],
    )
}

/// What the search for the table of log frames gives for an image.
fn table_of(elf: &[u8]) -> Result<Option<Table>, String> {
    Table::parse(elf).map_err(|e| e.to_string())
}

fn runner_error(elf: &[u8]) -> RunnerError {
    let name = TargetName("chip".into());
    let serial = ProbeSerial("S1".into());
    match Runner::new(elf, &name, &serial, None, table_of(elf)) {
        Ok(_) => panic!("expected an error, found a runner"),
        Err(error) => error,
    }
}

#[test]
fn runner_reads_what_steers_the_run_of_a_flash_image() {
    let elf = flash_image();
    let name = TargetName("chip".into());
    let serial = ProbeSerial("S1".into());
    let mut runner = Runner::new(&elf, &name, &serial, Some(4000), table_of(&elf)).unwrap();
    assert_eq!(runner.probe_serial(), &serial);
    assert_eq!(runner.target_name(), &name);
    assert_eq!(runner.elf_bytes(), &elf[..]);
    assert_eq!(runner.start(3), ProbeAction::OpenProbe { speed_khz: Some(4000) });
    assert!(!runner.is_finished());
}

#[test]
fn octets_that_are_no_elf_are_refused() {
    match runner_error(b"not an elf file at all") {
        RunnerError::Other(text) => {
            assert!(text.starts_with("ELF parsing error, file is not an ELF file: '"), "{text}");
            assert!(text.ends_with('\''));
            assert!(text.len() > "ELF parsing error, file is not an ELF file: ''".len());
        }
        other => panic!("expected Other, found {:?}", other),
    }
}

#[test]
fn image_without_main_is_refused() {
    let elf = elf_image(
        &[(".vector_table", 0x0800_0000, vector_table(1, 2, 3))],
        &[("_SEGGER_RTT", 0x2000_0010, 0)],
    );
    let error = runner_error(&elf);
    assert_eq!(error.message(), "'main' symbol not found");
}

#[test]
fn image_without_control_block_is_refused() {
    let elf = elf_image(
        &[(".vector_table", 0x0800_0000, vector_table(1, 2, 3))],
        &[("main", 0x0800_0151, 0)],
    );
    let error = runner_error(&elf);
    assert_eq!(
        error.message(),
        "'_SEGGER_RTT' symbol not found, without RTT this CI tool will not work"
    );
}

#[test]
fn image_without_vector_table_is_refused() {
    let elf = elf_image(
        &[(".text", 0x0800_0100, vec![0; 8])],
        &[("main", 0x0800_0151, 0), ("_SEGGER_RTT", 0x2000_0010, 0)],
    );
    let error = runner_error(&elf);
    assert_eq!(error.message(), "'.vector_table' section not found");
}

#[test]
fn image_with_unaligned_section_is_refused() {
    let elf = elf_image(
        &[
            (".vector_table", 0x0800_0000, vector_table(1, 2, 3)),
            (".rodata", 0x0800_0102, vec![0; 8]),
        ],
        &[("main", 0x0800_0151, 0), ("_SEGGER_RTT", 0x2000_0010, 0)],
    );
    let error = runner_error(&elf);
    assert!(matches!(error, RunnerError::ElfError(_)));
    assert_eq!(error.message(), "ELF file error: Section '.rodata' is not 4 byte aligned");
}

#[test]
fn image_with_short_vector_table_is_refused() {
    let elf = elf_image(
        &[(".vector_table", 0x0800_0000, vec![0; 12])],
        &[("main", 0x0800_0151, 0), ("_SEGGER_RTT", 0x2000_0010, 0)],
    );
    let error = runner_error(&elf);
    assert_eq!(
        error.message(),
        "ELF file error: Section '.vector_table' is too small, size = 12 bytes"
    );
}

fn symbol(name: &str, address: u64) -> ElfSymbol {
    ElfSymbol { name: Some(name.into()), address }
}

fn section(name: &str, address: u64, data: Option<Vec<u8>>) -> ElfSection {
    ElfSection { name: Some(name.into()), address, data }
}

#[test]
fn introspection_clears_the_thumb_bit_of_main() {
    let contents = ElfContents {
        symbols: vec![symbol("other", 7), symbol("main", 0x0800_0151), symbol("_SEGGER_RTT", 0x2000_0011)],
        sections: vec![section(".vector_table", 0x0800_0000, Some(vector_table(0x2000_8000, 0x0800_0101, 0x0800_0203)))],
    };
    let layout = introspect(&contents).unwrap();
    assert_eq!(layout.symbols.main, 0x0800_0150);
    assert_eq!(layout.symbols.rtt, 0x2000_0011);
    assert!(!layout.from_ram);
    let table = layout.vector_table.unwrap();
    assert_eq!(table.start, 0x0800_0000);
    assert_eq!(table.stack_pointer, 0x2000_8000);
    assert_eq!(table.reset, 0x0800_0101);
    assert_eq!(table.hardfault, 0x0800_0203);
}

#[test]
fn introspection_tells_a_ram_image_by_its_vector_table() {
    let mut contents = ElfContents {
        symbols: vec![symbol("main", 0x2000_0101), symbol("_SEGGER_RTT", 0x2000_1000)],
        sections: vec![section(".vector_table", 0x2000_0000, Some(vector_table(1, 2, 3)))],
    };
    assert!(introspect(&contents).unwrap().from_ram);
    contents.sections[0].address = 0x1fff_fffc;
    assert!(!introspect(&contents).unwrap().from_ram);
}

#[test]
fn introspection_stops_at_the_symbol_that_completes_the_pair() {
    let contents = ElfContents {
        symbols: vec![
            symbol("main", 0x101),
            symbol("main", 0x201),
            ElfSymbol { name: None, address: 0x999 },
            symbol("_SEGGER_RTT", 0x300),
            symbol("main", 0x401),
            symbol("_SEGGER_RTT", 0x500),
        ],
        sections: vec![section(".vector_table", 0, Some(vector_table(1, 2, 3)))],
    };
    let layout = introspect(&contents).unwrap();
    assert_eq!(layout.symbols.main, 0x200);
    assert_eq!(layout.symbols.rtt, 0x300);
}

#[test]
fn introspection_keeps_the_last_vector_table() {
    let contents = ElfContents {
        symbols: vec![symbol("main", 0x101), symbol("_SEGGER_RTT", 0x300)],
        sections: vec![
            section(".vector_table", 0x2000_0000, Some(vector_table(1, 2, 3))),
            section(".other", 0x3, None),
            ElfSection { name: None, address: 0x3, data: None },
            section(".vector_table", 0x0800_0000, Some(vector_table(4, 5, 6))),
        ],
    };
    let layout = introspect(&contents).unwrap();
    assert!(!layout.from_ram);
    assert_eq!(layout.vector_table.unwrap().stack_pointer, 4);
}

#[test]
fn introspection_reports_each_fault() {
    let symbols = vec![symbol("main", 0x101), symbol("_SEGGER_RTT", 0x300)];
    let with = |sections: Vec<ElfSection>| introspect(&ElfContents { symbols: symbols.clone(), sections });
    assert_eq!(
        introspect(&ElfContents { symbols: vec![symbol("_SEGGER_RTT", 0x300)], sections: vec![] }),
        Err(ElfFault::MainNotFound)
    );
    assert_eq!(
        introspect(&ElfContents { symbols: vec![symbol("main", 0x300)], sections: vec![] }),
        Err(ElfFault::RttNotFound)
    );
    assert_eq!(
        with(vec![section(".data", 0x2000_0001, None)]),
        Err(ElfFault::Unaligned(ImportantSection::Data))
    );
    assert_eq!(
        with(vec![section(".text", 0x6, None)]),
        Err(ElfFault::Unaligned(ImportantSection::Text))
    );
    assert_eq!(with(vec![section(".vector_table", 0x0, None)]), Err(ElfFault::NoData));
    assert_eq!(
        with(vec![section(".vector_table", 0x0, Some(vec![0; 15]))]),
        Err(ElfFault::TooSmall { size: 15 })
    );
    assert_eq!(
        with(vec![section(".vector_table", 0x1_0000_0000, Some(vec![0; 16]))]),
        Err(ElfFault::AddressNot32Bit)
    );
    assert_eq!(with(vec![section(".bss", 0x3, None)]).unwrap().vector_table, None);
}

#[test]
fn faults_are_reported_in_words() {
    assert_eq!(ElfFault::NoData.message(), "There is no data in section '.vector_table'");
    assert_eq!(
        ElfFault::AddressNot32Bit.message(),
        "The address of section '.vector_table' is not 32-bit"
    );
    assert_eq!(
        ElfFault::Unaligned(ImportantSection::VectorTable).message(),
        "Section '.vector_table' is not 4 byte aligned"
    );
    assert_eq!(
        ElfFault::TooSmall { size: 0 }.message(),
        "Section '.vector_table' is too small, size = 0 bytes"
    );
}

#[test]
fn image_without_log_table_logs_plain_text() {
    let elf = flash_image();
    let rtt_type = detect_log_type(&elf, table_of(&elf)).unwrap();
    assert!(matches!(rtt_type, RttType::PlainText));
    assert_eq!(log_to_string(&rtt_type, b"hello\nworld".to_vec(), &[]), Ok("hello\nworld".to_string()));
    assert!(!rtt_type.recovers());
    assert_eq!(
        log_to_string(&rtt_type, b"text".to_vec(), &[DecodeStep::Malformed, DecodeStep::Eof]),
        Ok("text".to_string())
    );
}

#[test]
fn plain_log_that_is_no_utf8_is_refused() {
    let refused = log_to_string(&RttType::PlainText, vec![b'a', 0xff, b'b'], &[]).unwrap_err();
    assert_eq!(refused, String::from_utf8(vec![b'a', 0xff, b'b']).unwrap_err().to_string());
}

fn frames_of(rtt_type: &RttType, buffer: &[u8]) -> Vec<DecodeStep> {
    let table = match rtt_type {
        RttType::Defmt { table } => table,
        RttType::PlainText => return Vec::new(),
    };
    let mut decoder = table.new_stream_decoder();
    decoder.received(buffer);
    let mut steps = Vec::new();
    loop {
        let step = match decoder.decode() {
            Ok(frame) => DecodeStep::Frame(LogFrame {
                level: frame.level().map(|level| match level {
                    defmt_parser::Level::Trace => LogLevel::Trace,
                    defmt_parser::Level::Debug => LogLevel::Debug,
                    defmt_parser::Level::Info => LogLevel::Info,
                    defmt_parser::Level::Warn => LogLevel::Warn,
                    defmt_parser::Level::Error => LogLevel::Error,
                }),
                message: frame.display_message().to_string(),
            }),
            Err(defmt_decoder::DecodeError::Malformed) => DecodeStep::Malformed,
            Err(defmt_decoder::DecodeError::UnexpectedEof) => DecodeStep::Eof,
        };
        let ends = step.ends_log(rtt_type.recovers());
        steps.push(step);
        if ends {
            return steps;
        }
    }
}

fn decoded_log(rtt_type: &RttType, buffer: Vec<u8>) -> Result<String, String> {
    let frames = frames_of(rtt_type, &buffer);
    log_to_string(rtt_type, buffer, &frames)
}

fn defmt_image(encoding: &str) -> Vec<u8> {
    let encoding = format!("_defmt_encoding_ = {encoding}");
    elf_image(
        &[
            (".vector_table", 0x0800_0000, vector_table(0x2000_8000, 0x0800_0101, 0x0800_0203)),
            (".defmt", 0, vec![0; 8]),
        ],
        &[
            ("main", 0x0800_0151, 0),
            ("_SEGGER_RTT", 0x2000_0010, 0),
            ("_defmt_version_ = 4", 4, 0),
            (&encoding, 0, 0),
            ("{\"package\":\"app\",\"tag\":\"defmt_info\",\"data\":\"hello\",\"disambiguator\":\"1\"}", 1, 1),
            ("{\"package\":\"app\",\"tag\":\"defmt_error\",\"data\":\"value {=u8}\",\"disambiguator\":\"2\"}", 2, 1),
            ("{\"package\":\"app\",\"tag\":\"defmt_println\",\"data\":\"bare\",\"disambiguator\":\"3\"}", 3, 1),
        ],
    )
}

#[test]
fn frames_are_rendered_one_line_each() {
    let elf = defmt_image("raw");
    let rtt_type = detect_log_type(&elf, table_of(&elf)).unwrap();
    assert!(matches!(rtt_type, RttType::Defmt { .. }));
    assert!(!rtt_type.recovers());
    let log = decoded_log(&rtt_type, vec![1, 0, 2, 0, 42, 3, 0]).unwrap();
    assert_eq!(log, "INFO  hello\nERROR value 42\nbare\n");
}

#[test]
fn incomplete_frame_ends_the_log() {
    let elf = defmt_image("raw");
    let rtt_type = detect_log_type(&elf, table_of(&elf)).unwrap();
    assert_eq!(decoded_log(&rtt_type, vec![1, 0, 2, 0]), Ok("INFO  hello\n".to_string()));
    assert_eq!(decoded_log(&rtt_type, vec![]), Ok(String::new()));
}

#[test]
fn malformed_frame_ends_a_log_that_cannot_recover() {
    let elf = defmt_image("raw");
    let rtt_type = detect_log_type(&elf, table_of(&elf)).unwrap();
    assert_eq!(decoded_log(&rtt_type, vec![1, 0, 9, 0, 1, 0]), Ok("INFO  hello\n".to_string()));
}

#[test]
fn malformed_frame_is_passed_over_where_the_log_recovers() {
    let elf = defmt_image("rzcobs");
    let rtt_type = detect_log_type(&elf, table_of(&elf)).unwrap();
    assert!(rtt_type.recovers());
    let log = decoded_log(&rtt_type, vec![1, 0x7e, 0, 9, 0x7e, 0, 3, 0x7e, 0, 1]).unwrap();
    assert_eq!(log, "INFO  hello\nbare\n");
}

#[test]
fn image_with_log_table_but_without_version_is_refused() {
    let elf = elf_image(
        &[(".vector_table", 0x0800_0000, vector_table(1, 2, 3)), (".defmt", 0, vec![0; 8])],
        &[("main", 0x0800_0151, 0), ("_SEGGER_RTT", 0x2000_0010, 0)],
    );
    let refused = match detect_log_type(&elf, table_of(&elf)) {
        Ok(_) => panic!("expected an error"),
        Err(message) => message,
    };
    assert!(refused.contains("no version symbol"), "{refused}");
    let error = runner_error(&elf);
    assert_eq!(error.message(), refused);
}

fn frame(level: Option<LogLevel>, message: &str) -> DecodeStep {
    DecodeStep::Frame(LogFrame { level, message: message.into() })
}

#[test]
fn outcomes_of_decoding_are_rendered_up_to_the_end_of_the_log() {
    let steps = vec![
        frame(Some(LogLevel::Warn), "one"),
        DecodeStep::Malformed,
        frame(None, "two"),
        DecodeStep::Eof,
        frame(Some(LogLevel::Trace), "three"),
    ];
    assert_eq!(render_steps(&steps, true), "WARN  one\ntwo\n");
    assert_eq!(render_steps(&steps, false), "WARN  one\n");
    assert_eq!(render_steps(&steps[..1], false), "WARN  one\n");
    assert_eq!(render_steps(&[], true), "");
    assert!(!steps[0].ends_log(false));
    assert!(steps[1].ends_log(false));
    assert!(!steps[1].ends_log(true));
    assert!(steps[3].ends_log(true));
}

#[test]
fn log_in_frames_is_the_rendering_of_the_frames_handed_over() {
    let elf = defmt_image("rzcobs");
    let rtt_type = detect_log_type(&elf, table_of(&elf)).unwrap();
    let steps = vec![frame(Some(LogLevel::Debug), "d"), DecodeStep::Malformed, frame(Some(LogLevel::Error), "e")];
    assert_eq!(log_to_string(&rtt_type, vec![0xff], &steps), Ok("DEBUG d\nERROR e\n".to_string()));
    let raw = detect_log_type(&defmt_image("raw"), table_of(&defmt_image("raw"))).unwrap();
    assert_eq!(log_to_string(&raw, vec![0xff], &steps), Ok("DEBUG d\n".to_string()));
}

#[test]
fn runner_reports_the_frames_of_a_run_that_passed() {
    let elf = defmt_image("raw");
    let name = TargetName("chip".into());
    let serial = ProbeSerial("S1".into());
    let mut runner = Runner::new(&elf, &name, &serial, None, table_of(&elf)).unwrap();
    assert!(matches!(runner.log_type(), RttType::Defmt { .. }));
    runner.start(5);
    for _ in 0..5 {
        runner.step(ProbeEvent::Done);
    }
    runner.step(ProbeEvent::Number(4));
    for _ in 0..11 {
        runner.step(ProbeEvent::Done);
    }
    runner.step(ProbeEvent::Bytes(vec![1, 0]));
    runner.step(ProbeEvent::Halted { halted: true, elapsed_nanos: 1 });
    runner.step(ProbeEvent::Bytes(vec![3, 0]));
    assert_eq!(runner.drained(), &[1, 0, 3, 0]);
    let last = runner.step(ProbeEvent::Status(CoreState::Running));
    assert_eq!(last, ProbeAction::Finish);
    let frames = frames_of(runner.log_type(), runner.drained());
    assert_eq!(runner.conclude(&frames).unwrap(), "INFO  hello\nbare\n");
}

#[test]
fn runner_that_has_not_run_reports_so() {
    let elf = flash_image();
    let name = TargetName("chip".into());
    let serial = ProbeSerial("S1".into());
    let runner = Runner::new(&elf, &name, &serial, None, table_of(&elf)).unwrap();
    assert_eq!(runner.conclude(&[]).unwrap_err().message(), "The run is not over");
}

#[test]
fn refusal_of_the_search_for_the_table_is_handed_on() {
    let elf = flash_image();
    match detect_log_type(&elf, Err("no table to be had".to_string())) {
        Err(message) => assert_eq!(message, "no table to be had"),
        Ok(_) => panic!("expected a refusal"),
    }
    let name = TargetName("chip".into());
    let serial = ProbeSerial("S1".into());
    match Runner::new(&elf, &name, &serial, None, Err("no table to be had".to_string())) {
        Err(error) => assert_eq!(error.message(), "no table to be had"),
        Ok(_) => panic!("expected a refusal"),
    }
    assert!(matches!(detect_log_type(&elf, Ok(None)), Ok(RttType::PlainText)));
}

#[test]
fn fault_of_the_image_comes_before_the_refusal_of_the_search() {
    let name = TargetName("chip".into());
    let serial = ProbeSerial("S1".into());
    let refused = Runner::new(b"no image", &name, &serial, None, Err("no table to be had".to_string()));
    match refused {
        Err(error) => assert!(error.message().starts_with("ELF parsing error, file is not an ELF file: '")),
        Ok(_) => panic!("expected a refusal"),
    }
}
