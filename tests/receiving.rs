use eq_tracker::command::{parse_input, InputVariant};
use eq_tracker::isr::{timer1_compa, usart_rx, CellError};
use eq_tracker::serial_buffer::SerialBuffer;
use eq_tracker::serial::SerialHandler;

fn feed(buffer: &mut SerialBuffer, bytes: &[u8]) {
    for b in bytes {
        buffer.receive_byte(*b);
    }
}

#[test]
fn line_is_drained_and_parsed() {
    let mut buffer = SerialBuffer::new();
    feed(&mut buffer, b"2000\n");
    assert!(buffer.is_complete());
    let line = buffer.drain().unwrap();
    assert_eq!(parse_input(&line), InputVariant::TrackNewTime(2000));
    assert!(!buffer.is_complete());
    assert!(buffer.as_bytes().is_empty());
    assert_eq!(buffer.drain(), None);
}

#[test]
fn open_line_is_not_drained() {
    let mut buffer = SerialBuffer::new();
    feed(&mut buffer, b"hol");
    assert_eq!(buffer.drain(), None);
    assert_eq!(buffer.as_bytes(), b"hol");
}

#[test]
fn seventy_byte_line_keeps_first_sixty_four() {
    let mut buffer = SerialBuffer::new();
    let line: Vec<u8> = (0..70u8).map(|i| b'a' + (i % 26)).collect();
    feed(&mut buffer, &line);
    feed(&mut buffer, b"\n");
    let drained = buffer.drain().unwrap();
    assert_eq!(drained.len(), 64);
    assert_eq!(&drained[..], &line[..64]);
}

#[test]
fn second_line_before_drain_is_dropped() {
    let mut buffer = SerialBuffer::new();
    feed(&mut buffer, b"h\n2000\n");
    assert_eq!(buffer.drain().unwrap(), b"h".to_vec());
    assert_eq!(buffer.drain(), None);
    assert!(buffer.as_bytes().is_empty());
}

#[test]
fn handler_echoes_the_line() {
    let mut buffer = SerialBuffer::new();
    let mut handler = SerialHandler::new();
    assert_eq!(handler.handle_input(&mut buffer), None);
    feed(&mut buffer, b"s\n");
    assert_eq!(handler.handle_input(&mut buffer), Some(InputVariant::Status));
    assert_eq!(handler.take_output(), b"Got: s\n".to_vec());
}

#[test]
fn write_number_writes_decimal_digits() {
    let mut handler = SerialHandler::new();
    handler.write_number(0);
    handler.write_str(" ");
    handler.write_number(4294967295);
    handler.write_str(" ");
    handler.write_number(2000);
    assert_eq!(handler.take_output(), b"0 4294967295 2000".to_vec());
}

#[test]
fn status_report_names_the_values() {
    let mut handler = SerialHandler::new();
    handler.send_status(2000, 1500, 7);
    let text = String::from_utf8(handler.take_output()).unwrap();
    assert!(text.contains("Current Velocity: 2000 "));
    assert!(text.contains("Default Velocity: 1500 "));
    assert!(text.contains("Number of starts: 7 "));
    assert!(text.starts_with("\n\n~~~~~~~~~~ EQPlatform-PulseGuiding"));
}

#[test]
fn interrupts_before_boot_are_refused() {
    let mut timer_cell = None;
    assert_eq!(timer1_compa(&mut timer_cell), Err(CellError::NotInitialized));
    let mut buffer_cell: Option<SerialBuffer> = None;
    assert_eq!(usart_rx(&mut buffer_cell, b'h'), Err(CellError::NotInitialized));
    let mut buffer_cell = Some(SerialBuffer::new());
    assert_eq!(usart_rx(&mut buffer_cell, b'h'), Ok(()));
    assert_eq!(buffer_cell.unwrap().as_bytes(), b"h");
}
