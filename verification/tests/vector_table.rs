use stm32f7_boot::source::{Source, CORE_ENTRIES, TABLE_LEN, VENDOR_INTERRUPTS};
use stm32f7_boot::table::{entry_at, Entry, VectorTable};

const STACK_TOP: u32 = 0x2005_0000;

/// The exception and interrupt map of the device, slot by slot; an empty
/// string marks a reserved slot.
fn reference_map() -> Vec<&'static str> {
    vec![
        "Reset", "Nmi", "HardFault", "MemManage", "BusFault", "UsageFault", "", "", "", "",
        "SvCall", "", "", "PendSv", "SysTick",
        "Wwdg", "Pvd", "TampStamp", "RtcWkup", "Flash", "Rcc", "Exti0", "Exti1", "Exti2",
        "Exti3", "Exti4", "Dma1Stream0", "Dma1Stream1", "Dma1Stream2", "Dma1Stream3",
        "Dma1Stream4", "Dma1Stream5", "Dma1Stream6", "Adc", "Can1Tx", "Can1Rx0", "Can1Rx1",
        "Can1Sce", "Exti9To5", "Tim1BrkTim9", "Tim1UpTim10", "Tim1TrgComTim11", "Tim1Cc",
        "Tim2", "Tim3", "Tim4", "I2c1Ev", "I2c1Er", "I2c2Ev", "I2c2Er", "Spi1", "Spi2",
        "Usart1", "Usart2", "Usart3", "Exti15To10", "RtcAlarm", "OtgFsWkup", "Tim8BrkTim12",
        "Tim8UpTim13", "Tim8TrgComTim14", "Tim8Cc", "Dma1Stream7", "Fmc", "Sdmmc1", "Tim5",
        "Spi3", "Uart4", "Uart5", "Tim6Dac", "Tim7", "Dma2Stream0", "Dma2Stream1",
        "Dma2Stream2", "Dma2Stream3", "Dma2Stream4", "Eth", "EthWkup", "Can2Tx", "Can2Rx0",
        "Can2Rx1", "Can2Sce", "OtgFs", "Dma2Stream5", "Dma2Stream6", "Dma2Stream7", "Usart6",
        "I2c3Ev", "I2c3Er", "OtgHsEp1Out", "OtgHsEp1In", "OtgHsWkup", "OtgHs", "Dcmi", "Cryp",
        "HashRng", "Fpu", "Uart7", "Uart8", "Spi4", "Spi5", "Spi6", "Sai1", "LcdTft", "LtdcEr",
        "Dma2d", "Sai2", "QuadSpi", "LpTimer1", "HdmiCec", "I2c4Ev", "I2c4Er", "Spdifrx",
    ]
}

#[test]
fn table_length_is_core_plus_vendor() {
    let table = VectorTable::new(STACK_TOP);
    assert_eq!(CORE_ENTRIES, 16);
    assert_eq!(VENDOR_INTERRUPTS, 98);
    assert_eq!(TABLE_LEN, 114);
    assert_eq!(table.len(), 114);
    assert_eq!(table.entries().len(), CORE_ENTRIES + VENDOR_INTERRUPTS);
}

#[test]
fn every_slot_matches_the_reference_map() {
    let map = reference_map();
    assert_eq!(map.len(), 113);
    let table = VectorTable::new(STACK_TOP);
    for (k, name) in map.iter().enumerate() {
        let index = k + 1;
        let entry = table.get(index).unwrap();
        match entry {
            Entry::Handler(source) => assert_eq!(format!("{:?}", source), *name, "slot {}", index),
            Entry::Reserved => assert_eq!(*name, "", "slot {}", index),
            Entry::StackPointer(_) => panic!("stack pointer in slot {}", index),
        }
    }
}

#[test]
fn reserved_slots_hold_no_handler() {
    let table = VectorTable::new(STACK_TOP);
    let mut reserved: Vec<usize> = Vec::new();
    for index in 0..table.len() {
        if table.get(index) == Some(Entry::Reserved) {
            reserved.push(index);
            assert_eq!(table.handler(index), None);
        }
    }
    assert_eq!(reserved, vec![7, 8, 9, 10, 12, 13]);
}

#[test]
fn slot_zero_is_stack_pointer_and_slot_one_is_reset() {
    let table = VectorTable::new(STACK_TOP);
    assert_eq!(table.get(0), Some(Entry::StackPointer(STACK_TOP)));
    assert_eq!(table.get(1), Some(Entry::Handler(Source::Reset)));
    assert_eq!(table.initial_stack_pointer(), STACK_TOP);
    assert_eq!(table.handler(0), None);
    assert_eq!(table.handler(1), Some(Source::Reset));
    let other = VectorTable::new(0);
    assert_eq!(other.get(0), Some(Entry::StackPointer(0)));
    assert_eq!(other.initial_stack_pointer(), 0);
}

#[test]
fn system_exceptions_have_architectural_numbers() {
    assert_eq!(Source::Reset.exception_number(), 1);
    assert_eq!(Source::Nmi.exception_number(), 2);
    assert_eq!(Source::HardFault.exception_number(), 3);
    assert_eq!(Source::MemManage.exception_number(), 4);
    assert_eq!(Source::BusFault.exception_number(), 5);
    assert_eq!(Source::UsageFault.exception_number(), 6);
    assert_eq!(Source::SvCall.exception_number(), 11);
    assert_eq!(Source::PendSv.exception_number(), 14);
    assert_eq!(Source::SysTick.exception_number(), 15);
}

#[test]
fn peripheral_interrupts_follow_the_core_entries() {
    assert_eq!(Source::Wwdg.exception_number(), 16);
    assert_eq!(Source::Wwdg.irq(), Some(0));
    assert_eq!(Source::Usart1.exception_number(), 53);
    assert_eq!(Source::Usart1.irq(), Some(37));
    assert_eq!(Source::Eth.irq(), Some(61));
    assert_eq!(Source::Fpu.irq(), Some(81));
    assert_eq!(Source::Spdifrx.exception_number(), 113);
    assert_eq!(Source::Spdifrx.irq(), Some(97));
    assert_eq!(Source::Reset.irq(), None);
    assert_eq!(Source::SysTick.irq(), None);
}

#[test]
fn exception_numbers_round_trip() {
    let mut seen = 0;
    for n in 0..200usize {
        if let Some(source) = Source::from_exception_number(n) {
            assert_eq!(source.exception_number(), n);
            seen += 1;
        }
    }
    assert_eq!(seen, 107);
}

#[test]
fn no_source_outside_the_table() {
    assert_eq!(Source::from_exception_number(0), None);
    assert_eq!(Source::from_exception_number(7), None);
    assert_eq!(Source::from_exception_number(12), None);
    assert_eq!(Source::from_exception_number(114), None);
    assert_eq!(Source::from_exception_number(usize::MAX), None);
    assert_eq!(Source::from_exception_number(113), Some(Source::Spdifrx));
}

#[test]
fn lookup_past_the_end_finds_nothing() {
    let table = VectorTable::new(STACK_TOP);
    assert_eq!(table.get(113), Some(Entry::Handler(Source::Spdifrx)));
    assert_eq!(table.get(114), None);
    assert_eq!(table.handler(114), None);
    assert_eq!(table.handler(usize::MAX), None);
}

#[test]
fn entry_at_agrees_with_the_table() {
    let table = VectorTable::new(STACK_TOP);
    let entries = table.entries();
    for index in 0..TABLE_LEN {
        assert_eq!(entry_at(index, STACK_TOP), entries[index]);
    }
    assert_eq!(entry_at(0, 7), Entry::StackPointer(7));
    assert_eq!(entry_at(11, 7), Entry::Handler(Source::SvCall));
    assert_eq!(entry_at(12, 7), Entry::Reserved);
    assert_eq!(entry_at(500, 7), Entry::Reserved);
}

#[test]
fn every_source_has_exactly_one_slot() {
    let table = VectorTable::new(STACK_TOP);
    for n in 1..TABLE_LEN {
        if let Some(source) = table.handler(n) {
            let mut slots = 0;
            for index in 0..TABLE_LEN {
                if table.get(index) == Some(Entry::Handler(source)) {
                    slots += 1;
                }
            }
            assert_eq!(slots, 1);
        }
    }
}
