use blog_os::interrupts::{breakpoint_handler, init_idt, report_breakpoint, StackFrame};
use blog_os::vga_buffer::{Buffer, Color, ColorCode, Writer, BUFFER_HEIGHT, BUFFER_WIDTH};
use volatile::Volatile;
use x86_64::registers::rflags::RFlags;
use x86_64::structures::gdt::SegmentSelector;
use x86_64::structures::idt::{InterruptDescriptorTable, InterruptStackFrame};
use x86_64::VirtAddr;

fn blank_writer() -> Writer {
    let buffer: Buffer =
        core::array::from_fn(|_| core::array::from_fn(|_| Volatile::new([b' ', 0x0e])));
    Writer::new(ColorCode::new(Color::Yellow, Color::Black), Box::leak(Box::new(buffer)))
}

fn screen_text(writer: &Writer, row: usize) -> String {
    let mut text = String::new();
    for col in 0..BUFFER_WIDTH {
        text.push(char::from(writer.read_char(row, col).ascii_character));
    }
    String::from(text.trim_end())
}

fn sample_frame() -> StackFrame {
    StackFrame {
        instruction_pointer: 0x0020_1abc,
        code_segment: 8,
        cpu_flags: 0x0000_0246,
        stack_pointer: 0x0000_7fff_ffff_e000,
        stack_segment: 0,
    }
}

#[test]
fn report_prints_heading_then_text_then_line_feed() {
    let mut writer = blank_writer();
    report_breakpoint(&mut writer, "frame\nwith two lines");
    assert_eq!(screen_text(&writer, BUFFER_HEIGHT - 4), "EXCEPTION BREAKPOINT");
    assert_eq!(screen_text(&writer, BUFFER_HEIGHT - 3), "frame");
    assert_eq!(screen_text(&writer, BUFFER_HEIGHT - 2), "with two lines");
    assert_eq!(screen_text(&writer, BUFFER_HEIGHT - 1), "");
    assert_eq!(writer.column_position(), 0);
}

#[test]
fn breakpoint_handler_prints_the_frame_as_the_crate_shows_it() {
    let frame = sample_frame();
    let mut writer = blank_writer();
    breakpoint_handler(&mut writer, &frame);
    let shown = InterruptStackFrame::new(
        VirtAddr::new(frame.instruction_pointer),
        SegmentSelector(frame.code_segment),
        RFlags::from_bits_retain(frame.cpu_flags),
        VirtAddr::new(frame.stack_pointer),
        SegmentSelector(frame.stack_segment),
    );
    let report = format!("EXCEPTION BREAKPOINT\n{:#?}\n", shown);
    let lines: Vec<&str> = report.lines().collect();
    assert_eq!(lines.len(), 20);
    for (i, line) in lines.iter().enumerate() {
        let row = BUFFER_HEIGHT - 1 - lines.len() + i;
        assert_eq!(screen_text(&writer, row), line.trim_end());
    }
    assert_eq!(screen_text(&writer, BUFFER_HEIGHT - 1), "");
    assert_eq!(writer.column_position(), 0);
}

#[test]
fn breakpoint_report_of_a_known_frame() {
    let mut writer = blank_writer();
    breakpoint_handler(&mut writer, &sample_frame());
    let expected = [
        "EXCEPTION BREAKPOINT",
        "InterruptStackFrame {",
        "    instruction_pointer: VirtAddr(",
        "        0x201abc,",
        "    ),",
        "    code_segment: SegmentSelector {",
        "        index: 1,",
        "        rpl: Ring0,",
        "    },",
        "    cpu_flags: RFlags(",
        "        INTERRUPT_FLAG | ZERO_FLAG | PARITY_FLAG | 0x2,",
        "    ),",
        "    stack_pointer: VirtAddr(",
        "        0x7fffffffe000,",
        "    ),",
        "    stack_segment: SegmentSelector {",
        "        index: 0,",
        "        rpl: Ring0,",
        "    },",
        "}",
    ];
    for (i, line) in expected.iter().enumerate() {
        assert_eq!(screen_text(&writer, BUFFER_HEIGHT - 1 - expected.len() + i), *line);
    }
    assert_eq!(screen_text(&writer, BUFFER_HEIGHT - 1), "");
    for col in 0..BUFFER_WIDTH {
        assert_eq!(writer.read_char(BUFFER_HEIGHT - 1, col).color_code.as_u8(), 0x0e);
    }
}

#[test]
fn test_breakpoint_exception() {
    let mut writer = blank_writer();
    breakpoint_handler(&mut writer, &sample_frame());
    writer.write_string("It did not crash!");
    assert_eq!(screen_text(&writer, BUFFER_HEIGHT - 21), "EXCEPTION BREAKPOINT");
    assert_eq!(screen_text(&writer, BUFFER_HEIGHT - 2), "}");
    assert_eq!(screen_text(&writer, BUFFER_HEIGHT - 1), "It did not crash!");
}

#[test]
fn different_frames_give_different_reports() {
    let mut first = blank_writer();
    let mut second = blank_writer();
    let mut other = sample_frame();
    other.instruction_pointer = 0x0040_0000;
    breakpoint_handler(&mut first, &sample_frame());
    breakpoint_handler(&mut second, &other);
    let mut differ = false;
    for row in 0..BUFFER_HEIGHT {
        if screen_text(&first, row) != screen_text(&second, row) {
            differ = true;
        }
    }
    assert!(differ);
}

#[test]
fn init_idt_takes_a_table_that_lives_forever() {
    let table: &'static InterruptDescriptorTable =
        Box::leak(Box::new(InterruptDescriptorTable::new()));
    assert_eq!(table.breakpoint.handler_addr().as_u64(), 0);
    // Loading is privileged, so the call itself is left to the kernel.
    let load: fn(&'static InterruptDescriptorTable) = init_idt;
    let _ = (load, table);
}
