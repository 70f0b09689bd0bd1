use cureos::interrupt::{
    decode_page_fault, divide_error_handler, general_protection_handler, has_error_code,
    interrupt_handler, page_fault_handler, reserved_handler, ExceptionReport, IsrParam,
    PageFaultDetails,
};

fn frame(vector: u32, err_code: u32) -> IsrParam {
    IsrParam { vector, err_code, eip: 0xC010_1234, cs: 0x08, eflags: 0x202, esp: 0, ss: 0 }
}

#[test]
fn page_fault_on_present_page_read_by_supervisor() {
    match page_fault_handler(&frame(14, 0x1)) {
        ExceptionReport::Exception(e) => {
            assert_eq!(e.mnemonic, "#PF");
            assert_eq!(e.description, "Page Fault");
            assert_eq!(e.error_code, Some(0x1));
            let pf = e.page_fault.unwrap();
            assert!(pf.present);
            assert!(!pf.write);
            assert!(!pf.user);
            assert!(!pf.reserved);
            assert!(!pf.instruction_fetch);
        }
        ExceptionReport::Unhandled(_) => panic!("page fault reported as unhandled"),
    }
}

#[test]
fn page_fault_error_bits() {
    assert_eq!(
        decode_page_fault(0x1F),
        PageFaultDetails { present: true, write: true, user: true, reserved: true, instruction_fetch: true }
    );
    assert_eq!(
        decode_page_fault(0x6),
        PageFaultDetails { present: false, write: true, user: true, reserved: false, instruction_fetch: false }
    );
    assert_eq!(
        decode_page_fault(0xFFFF_FFE0),
        PageFaultDetails { present: false, write: false, user: false, reserved: false, instruction_fetch: false }
    );
}

#[test]
fn exception_frame_is_reported() {
    match divide_error_handler(&frame(0, 0)) {
        ExceptionReport::Exception(e) => {
            assert_eq!(e.vector, 0);
            assert_eq!(e.mnemonic, "#DE");
            assert_eq!(e.eip, 0xC010_1234);
            assert_eq!(e.cs, 0x08);
            assert_eq!(e.eflags, 0x202);
            assert_eq!(e.error_code, None);
            assert!(e.page_fault.is_none());
        }
        ExceptionReport::Unhandled(_) => panic!("divide error reported as unhandled"),
    }
}

#[test]
fn error_code_only_where_pushed() {
    let with: Vec<u32> = (0..32).filter(|&v| has_error_code(v)).collect();
    assert_eq!(with, vec![8, 10, 11, 12, 13, 14, 17]);
    match general_protection_handler(&frame(13, 0)) {
        ExceptionReport::Exception(e) => {
            assert_eq!(e.mnemonic, "#GP");
            assert_eq!(e.error_code, Some(0));
            assert!(e.page_fault.is_none());
        }
        ExceptionReport::Unhandled(_) => panic!("general protection reported as unhandled"),
    }
}

#[test]
fn dispatch_by_vector() {
    for v in 0..32u32 {
        match interrupt_handler(&frame(v, 0)) {
            ExceptionReport::Exception(e) => assert_eq!(e.vector, v),
            ExceptionReport::Unhandled(_) => panic!("vector {} reported as unhandled", v),
        }
    }
    match interrupt_handler(&frame(14, 0x7)) {
        ExceptionReport::Exception(e) => {
            assert_eq!(e.page_fault.map(|p| (p.present, p.write, p.user)), Some((true, true, true)));
        }
        ExceptionReport::Unhandled(_) => panic!("page fault reported as unhandled"),
    }
}

#[test]
fn vectors_from_32_are_unhandled() {
    for v in [32u32, 33, 0x80, 255, 1000] {
        match interrupt_handler(&frame(v, 0)) {
            ExceptionReport::Unhandled(u) => assert_eq!(u, v),
            ExceptionReport::Exception(_) => panic!("vector {} reported as an exception", v),
        }
    }
    match reserved_handler(&frame(15, 0)) {
        ExceptionReport::Exception(e) => assert_eq!(e.description, "RESERVED"),
        ExceptionReport::Unhandled(_) => panic!("vector 15 reported as unhandled"),
    }
}

#[test]
fn frame_accessors() {
    let f = IsrParam { vector: 3, err_code: 9, eip: 1, cs: 0x1B, eflags: 0x246, esp: 7, ss: 0x23 };
    assert_eq!((f.vector(), f.err_code(), f.eip(), f.cs(), f.eflags()), (3, 9, 1, 0x1B, 0x246));
}
