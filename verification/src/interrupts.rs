//! CPU exceptions: handing the exception table to the processor, and the
//! report that the breakpoint handler prints.

use vstd::prelude::*;
use vstd::string::StringSliceAdditionalSpecFns;
use vstd::utf8::encode_utf8;
use x86_64::registers::rflags::RFlags;
use x86_64::structures::gdt::SegmentSelector;
use x86_64::structures::idt::{Entry, HandlerFunc, InterruptDescriptorTable, InterruptStackFrame};
use x86_64::VirtAddr;
use crate::screen::lemma_write_string_concat;
use crate::vga_buffer::Writer;

verus! {

/// `x86_64::structures::idt::InterruptDescriptorTable`: 256 entries in the
/// layout that the processor reads. Verus sees nothing inside it.
#[verifier::external_type_specification]
#[verifier::external_body]
pub struct ExInterruptDescriptorTable(InterruptDescriptorTable);

/// `x86_64::structures::idt::Entry`, one entry of the table. It is declared
/// because the table hands out its entries by index.
#[verifier::external_type_specification]
#[verifier::external_body]
#[verifier::reject_recursive_types(F)]
pub struct ExEntry<F>(Entry<F>);

/// `x86_64::structures::idt::HandlerFunc`, the type of a handler for an
/// exception without error code. It is declared because the table's entries
/// are typed by it.
#[verifier::external_type_specification]
#[verifier::external_body]
pub struct ExHandlerFunc(HandlerFunc);

/// `InterruptDescriptorTable::load`: points the processor at the table with the
/// `lidt` instruction. Its effect is on the processor alone, so nothing is
/// claimed of it. The instruction is privileged: outside the processor's
/// supervisor mode it faults.
pub assume_specification[ InterruptDescriptorTable::load ](idt: &'static InterruptDescriptorTable)
;

/// Makes `idt` the table that the processor consults on every exception.
///
/// The table has to be complete before this call, and the call has to come
/// before the first exception that the table is to handle. The processor
/// keeps reading the table afterwards, which is why it must live forever.
pub fn init_idt(idt: &'static InterruptDescriptorTable) {
    idt.load();
}

/// The machine state that the processor saves when it enters an exception
/// handler.
#[derive(Debug, Clone, Copy, PartialEq, Eq, Structural)]
pub struct StackFrame {
    /// Where execution resumes when the handler returns.
    pub instruction_pointer: u64,
    /// The code segment selector at the time of the exception.
    pub code_segment: u16,
    /// The flags register at the time of the exception.
    pub cpu_flags: u64,
    /// The stack pointer at the time of the exception.
    pub stack_pointer: u64,
    /// The stack segment selector at the time of the exception.
    pub stack_segment: u16,
}

/// The text in which the `x86_64` crate shows a saved stack frame with the
/// given register values: the pretty `Debug` form of its
/// `InterruptStackFrame`.
pub uninterp spec fn stack_frame_text(
    instruction_pointer: u64,
    code_segment: u16,
    cpu_flags: u64,
    stack_pointer: u64,
    stack_segment: u16,
) -> Seq<char>;

/// Formats a stack frame with the pretty `Debug` implementation of
/// `x86_64::structures::idt::InterruptStackFrame`. Trusted to be a function of
/// the five register values alone. The two addresses are taken as the crate's
/// `VirtAddr::new_truncate` takes them: bits 48 to 63 follow bit 47.
#[verifier::external_body]
fn describe_stack_frame(frame: &StackFrame) -> (text: String)
    ensures
        text@ == stack_frame_text(
            frame.instruction_pointer,
            frame.code_segment,
            frame.cpu_flags,
            frame.stack_pointer,
            frame.stack_segment,
        ),
{
    let value = InterruptStackFrame::new(
        VirtAddr::new_truncate(frame.instruction_pointer),
        SegmentSelector(frame.code_segment),
        RFlags::from_bits_retain(frame.cpu_flags),
        VirtAddr::new_truncate(frame.stack_pointer),
        SegmentSelector(frame.stack_segment),
    );
    format!("{:#?}", value)
}

/// The bytes of a breakpoint report: a heading line, the description of the
/// stack frame, and a line feed.
pub open spec fn breakpoint_report(frame_text: Seq<char>) -> Seq<u8> {
    "EXCEPTION BREAKPOINT\n".spec_bytes() + encode_utf8(frame_text) + "\n".spec_bytes()
}

/// Prints a breakpoint report for a stack frame that is already described
/// by `frame_text`.
pub fn report_breakpoint(writer: &mut Writer, frame_text: &str)
    ensures
        final(writer)@ == old(writer)@.write_string(breakpoint_report(frame_text@)),
        final(writer)@.wf(),
{
    writer.write_string("EXCEPTION BREAKPOINT\n");
    writer.write_string(frame_text);
    writer.write_string("\n");
    proof {
        let heading = "EXCEPTION BREAKPOINT\n".spec_bytes();
        let body = encode_utf8(frame_text@);
        lemma_write_string_concat(old(writer)@, heading, body);
        lemma_write_string_concat(old(writer)@, heading + body, "\n".spec_bytes());
    }
}

/// What the breakpoint handler does once the processor has entered it: it
/// prints the report for the saved stack frame and returns, so that the
/// interrupted code can go on.
pub fn breakpoint_handler(writer: &mut Writer, stack_frame: &StackFrame)
    ensures
        final(writer)@ == old(writer)@.write_string(
            breakpoint_report(
                stack_frame_text(
                    stack_frame.instruction_pointer,
                    stack_frame.code_segment,
                    stack_frame.cpu_flags,
                    stack_frame.stack_pointer,
                    stack_frame.stack_segment,
                ),
            ),
        ),
        final(writer)@.wf(),
{
    let text = describe_stack_frame(stack_frame);
    report_breakpoint(writer, text.as_str());
}

} // verus!
