use zmu_cortex_m::exception::Exception;

#[test]
fn exception_numbers_round_trip() {
    for n in 0..=255u8 {
        assert_eq!(u8::from(Exception::from(n)), n);
    }
}

#[test]
fn exception_table() {
    assert_eq!(Exception::from(3), Exception::HardFault);
    assert_eq!(Exception::from(11), Exception::SVCall);
    assert_eq!(Exception::from(16), Exception::Interrupt { n: 0 });
    assert_eq!(u8::from(Exception::Interrupt { n: 5 }), 21);
    assert_eq!(u8::from(Exception::SysTick), 15);
}
