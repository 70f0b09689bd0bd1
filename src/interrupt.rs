//! The trap frame and the dispatch path: every trap reaches one handler,
//! which classifies the vector and describes what happened. What to do
//! with the description (print it, halt) is the caller's policy.
use vstd::prelude::*;

verus! {

/// The page-fault vector.
pub const PAGE_FAULT_VECTOR: u32 = 14;

/// Vectors below this are architectural exceptions.
pub const EXCEPTION_VECTORS: u32 = 32;

/// The exceptions for which the CPU pushes an error code: double fault,
/// invalid TSS, segment not present, stack-segment fault, general
/// protection, page fault and alignment check. For the others the entry
/// trampoline pushes a placeholder.
pub open spec fn pushes_error_code(vector: u32) -> bool {
    vector == 8 || (10 <= vector <= 14) || vector == 17
}

/// The frame a handler receives: the vector and error code pushed by the
/// entry trampoline, then what the CPU pushed.
#[derive(Clone, Copy, Debug, PartialEq, Eq, Structural)]
pub struct IsrParam {
    pub vector: u32,
    pub err_code: u32,
    pub eip: u32,
    pub cs: u32,
    pub eflags: u32,
    /// Stack pointer before the trap; pushed on a privilege change only.
    pub esp: u32,
    /// Stack segment before the trap; pushed on a privilege change only.
    pub ss: u32,
}

impl IsrParam {
    /// The vector number.
    pub fn vector(&self) -> (r: u32)
        ensures
            r == self.vector,
    {
        self.vector
    }

    /// The error code, or the trampoline's placeholder.
    pub fn err_code(&self) -> (r: u32)
        ensures
            r == self.err_code,
    {
        self.err_code
    }

    /// The faulting instruction pointer.
    pub fn eip(&self) -> (r: u32)
        ensures
            r == self.eip,
    {
        self.eip
    }

    /// The code selector at the time of the trap.
    pub fn cs(&self) -> (r: u32)
        ensures
            r == self.cs,
    {
        self.cs
    }

    /// The flags register at the time of the trap.
    pub fn eflags(&self) -> (r: u32)
        ensures
            r == self.eflags,
    {
        self.eflags
    }
}

/// A page-fault error code, decoded.
#[derive(Clone, Copy, Debug, PartialEq, Eq, Structural)]
pub struct PageFaultDetails {
    /// A protection violation on a present page, rather than a non-present page.
    pub present: bool,
    /// The access was a write, rather than a read.
    pub write: bool,
    /// The access came from user mode, rather than supervisor mode.
    pub user: bool,
    /// A reserved bit was set in a paging structure.
    pub reserved: bool,
    /// The access was an instruction fetch.
    pub instruction_fetch: bool,
}

/// The decoding of page-fault error code `code`: bits 0 to 4.
pub open spec fn page_fault_details(code: u32) -> PageFaultDetails {
    PageFaultDetails {
        present: code & 0x1 != 0,
        write: code & 0x2 != 0,
        user: code & 0x4 != 0,
        reserved: code & 0x8 != 0,
        instruction_fetch: code & 0x10 != 0,
    }
}

/// Relies on x86's `PageFaultError::from_bits_truncate` and `bits`: the
/// code's bits that name page-fault flags (bits 0 to 5) are kept, the
/// others dropped.
#[verifier::external_body]
fn page_fault_flags(code: u32) -> (r: u32)
    ensures
        r == code & 0x3F,
{
    x86::irq::PageFaultError::from_bits_truncate(code).bits()
}

/// Decodes page-fault error code `code`.
pub fn decode_page_fault(code: u32) -> (r: PageFaultDetails)
    ensures
        r == page_fault_details(code),
{
    let bits = page_fault_flags(code);
    proof {
        assert({
            &&& (bits & 0x1 != 0) == (code & 0x1 != 0)
            &&& (bits & 0x2 != 0) == (code & 0x2 != 0)
            &&& (bits & 0x4 != 0) == (code & 0x4 != 0)
            &&& (bits & 0x8 != 0) == (code & 0x8 != 0)
            &&& (bits & 0x10 != 0) == (code & 0x10 != 0)
        }) by (bit_vector)
            requires
                bits == code & 0x3F,
        ;
    }
    PageFaultDetails {
        present: bits & 0x1 != 0,
        write: bits & 0x2 != 0,
        user: bits & 0x4 != 0,
        reserved: bits & 0x8 != 0,
        instruction_fetch: bits & 0x10 != 0,
    }
}

/// The mnemonic x86's exception table gives exception `vector`.
pub uninterp spec fn exception_mnemonic(vector: u32) -> Seq<char>;

/// The description x86's exception table gives exception `vector`.
pub uninterp spec fn exception_description(vector: u32) -> Seq<char>;

/// Relies on x86's `irq::EXCEPTIONS` table: the mnemonic it lists for
/// exception `vector`.
#[verifier::external_body]
fn mnemonic_of(vector: u32) -> (r: String)
    requires
        vector < EXCEPTION_VECTORS,
    ensures
        r@ == exception_mnemonic(vector),
{
    x86::irq::EXCEPTIONS[vector as usize].mnemonic.to_string()
}

/// Relies on x86's `irq::EXCEPTIONS` table: the description it lists for
/// exception `vector`.
#[verifier::external_body]
fn description_of(vector: u32) -> (r: String)
    requires
        vector < EXCEPTION_VECTORS,
    ensures
        r@ == exception_description(vector),
{
    x86::irq::EXCEPTIONS[vector as usize].description.to_string()
}

/// What a handler reports of an architectural exception.
pub struct CpuException {
    pub vector: u32,
    pub mnemonic: String,
    pub description: String,
    pub eip: u32,
    pub cs: u32,
    pub eflags: u32,
    /// The hardware error code, for the exceptions that push one.
    pub error_code: Option<u32>,
    /// The decoded error code, for page faults. The faulting address is in
    /// the fault-address control register, which only the caller can read.
    pub page_fault: Option<PageFaultDetails>,
}

/// What a handler reports of a trap.
pub enum ExceptionReport {
    /// An architectural exception (vector below 32).
    Exception(CpuException),
    /// Any other vector: an interrupt nothing handles.
    Unhandled(u32),
}

/// `r` is the report of the trap with frame `p`.
pub open spec fn reports(r: ExceptionReport, p: IsrParam) -> bool {
    if p.vector < EXCEPTION_VECTORS {
        match r {
            ExceptionReport::Exception(e) => {
                &&& e.vector == p.vector
                &&& e.mnemonic@ == exception_mnemonic(p.vector)
                &&& e.description@ == exception_description(p.vector)
                &&& e.eip == p.eip
                &&& e.cs == p.cs
                &&& e.eflags == p.eflags
                &&& e.error_code == if pushes_error_code(p.vector) {
                    Some(p.err_code)
                } else {
                    None
                }
                &&& e.page_fault == if p.vector == PAGE_FAULT_VECTOR {
                    Some(page_fault_details(p.err_code))
                } else {
                    None
                }
            },
            ExceptionReport::Unhandled(_) => false,
        }
    } else {
        r == ExceptionReport::Unhandled(p.vector)
    }
}

/// Whether the CPU pushes an error code for `vector`.
pub fn has_error_code(vector: u32) -> (r: bool)
    ensures
        r == pushes_error_code(vector),
{
    vector == 8 || (10 <= vector && vector <= 14) || vector == 17
}

/// Describes the trap with frame `param`.
fn describe_exception(param: &IsrParam) -> (r: ExceptionReport)
    ensures
        reports(r, *param),
{
    let vector = param.vector();
    if vector < EXCEPTION_VECTORS {
        let error_code = if has_error_code(vector) {
            Some(param.err_code())
        } else {
            None
        };
        let page_fault = if vector == PAGE_FAULT_VECTOR {
            Some(decode_page_fault(param.err_code()))
        } else {
            None
        };
        ExceptionReport::Exception(
            CpuException {
                vector,
                mnemonic: mnemonic_of(vector),
                description: description_of(vector),
                eip: param.eip(),
                cs: param.cs(),
                eflags: param.eflags(),
                error_code,
                page_fault,
            },
        )
    } else {
        ExceptionReport::Unhandled(vector)
    }
}

/// Handles the divide error (#DE), vector 0.
pub fn divide_error_handler(param: &IsrParam) -> (r: ExceptionReport)
    ensures
        reports(r, *param),
{
    describe_exception(param)
}

/// Handles the debug exception (#DB), vector 1.
pub fn debug_error_handler(param: &IsrParam) -> (r: ExceptionReport)
    ensures
        reports(r, *param),
{
    describe_exception(param)
}

/// Handles the non-maskable interrupt, vector 2.
pub fn nonmaskable_interrupt_handler(param: &IsrParam) -> (r: ExceptionReport)
    ensures
        reports(r, *param),
{
    describe_exception(param)
}

/// Handles the breakpoint (#BP), vector 3.
pub fn breakpoint_handler(param: &IsrParam) -> (r: ExceptionReport)
    ensures
        reports(r, *param),
{
    describe_exception(param)
}

/// Handles the overflow (#OF), vector 4.
pub fn overflow_handler(param: &IsrParam) -> (r: ExceptionReport)
    ensures
        reports(r, *param),
{
    describe_exception(param)
}

/// Handles the BOUND range exceeded (#BR), vector 5.
pub fn bound_range_exceeded_handler(param: &IsrParam) -> (r: ExceptionReport)
    ensures
        reports(r, *param),
{
    describe_exception(param)
}

/// Handles the invalid opcode (#UD), vector 6.
pub fn invalid_opcode_handler(param: &IsrParam) -> (r: ExceptionReport)
    ensures
        reports(r, *param),
{
    describe_exception(param)
}

/// Handles the device not available (#NM), vector 7.
pub fn device_not_available_handler(param: &IsrParam) -> (r: ExceptionReport)
    ensures
        reports(r, *param),
{
    describe_exception(param)
}

/// Handles the double fault (#DF), vector 8.
pub fn double_fault_handler(param: &IsrParam) -> (r: ExceptionReport)
    ensures
        reports(r, *param),
{
    describe_exception(param)
}

/// Handles the coprocessor segment overrun, vector 9.
pub fn coprocessor_segment_overrun_handler(param: &IsrParam) -> (r: ExceptionReport)
    ensures
        reports(r, *param),
{
    describe_exception(param)
}

/// Handles the invalid TSS (#TS), vector 10.
pub fn invalid_tss_handler(param: &IsrParam) -> (r: ExceptionReport)
    ensures
        reports(r, *param),
{
    describe_exception(param)
}

/// Handles the segment not present (#NP), vector 11.
pub fn segment_not_present_handler(param: &IsrParam) -> (r: ExceptionReport)
    ensures
        reports(r, *param),
{
    describe_exception(param)
}

/// Handles the stack-segment fault (#SS), vector 12.
pub fn stack_segment_fault_handler(param: &IsrParam) -> (r: ExceptionReport)
    ensures
        reports(r, *param),
{
    describe_exception(param)
}

/// Handles the general protection fault (#GP), vector 13.
pub fn general_protection_handler(param: &IsrParam) -> (r: ExceptionReport)
    ensures
        reports(r, *param),
{
    describe_exception(param)
}

/// Handles the page fault (#PF), vector 14.
pub fn page_fault_handler(param: &IsrParam) -> (r: ExceptionReport)
    ensures
        reports(r, *param),
{
    describe_exception(param)
}

/// Handles the x87 floating-point error (#MF), vector 16.
pub fn x87_fpu_floating_point_handler(param: &IsrParam) -> (r: ExceptionReport)
    ensures
        reports(r, *param),
{
    describe_exception(param)
}

/// Handles the alignment check (#AC), vector 17.
pub fn alignment_check_handler(param: &IsrParam) -> (r: ExceptionReport)
    ensures
        reports(r, *param),
{
    describe_exception(param)
}

/// Handles the machine check (#MC), vector 18.
pub fn machine_check_handler(param: &IsrParam) -> (r: ExceptionReport)
    ensures
        reports(r, *param),
{
    describe_exception(param)
}

/// Handles the SIMD floating-point exception (#XM), vector 19.
pub fn simd_floating_point_handler(param: &IsrParam) -> (r: ExceptionReport)
    ensures
        reports(r, *param),
{
    describe_exception(param)
}

/// Handles the virtualization exception (#VE), vector 20.
pub fn virtualization_handler(param: &IsrParam) -> (r: ExceptionReport)
    ensures
        reports(r, *param),
{
    describe_exception(param)
}

/// Handles the reserved vectors 15 and 21 to 31, and every vector from 32
/// on.
pub fn reserved_handler(param: &IsrParam) -> (r: ExceptionReport)
    ensures
        reports(r, *param),
{
    describe_exception(param)
}

/// The common entry of every trap: routes the frame to the handler of its
/// vector.
pub fn interrupt_handler(param: &IsrParam) -> (r: ExceptionReport)
    ensures
        reports(r, *param),
{
    match param.vector {
        0 => divide_error_handler(param),
        1 => debug_error_handler(param),
        2 => nonmaskable_interrupt_handler(param),
        3 => breakpoint_handler(param),
        4 => overflow_handler(param),
        5 => bound_range_exceeded_handler(param),
        6 => invalid_opcode_handler(param),
        7 => device_not_available_handler(param),
        8 => double_fault_handler(param),
        9 => coprocessor_segment_overrun_handler(param),
        10 => invalid_tss_handler(param),
        11 => segment_not_present_handler(param),
        12 => stack_segment_fault_handler(param),
        13 => general_protection_handler(param),
        14 => page_fault_handler(param),
        16 => x87_fpu_floating_point_handler(param),
        17 => alignment_check_handler(param),
        18 => machine_check_handler(param),
        19 => simd_floating_point_handler(param),
        20 => virtualization_handler(param),
        _ => reserved_handler(param),
    }
}

} // verus!
