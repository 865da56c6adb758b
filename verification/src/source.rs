//! Interrupt and exception sources of the STM32F746 and their positions in
//! the vector table.
use vstd::prelude::*;

verus! {

/// Number of vector-table slots that the Cortex-M7 core fixes: the initial
/// stack pointer followed by fifteen system exception slots.
pub const CORE_ENTRIES: usize = 16;

/// Number of interrupt lines that the STM32F746 routes into the NVIC.
pub const VENDOR_INTERRUPTS: usize = 98;

/// Total number of slots in the vector table.
pub const TABLE_LEN: usize = 114;

/// Every source that can make the processor fetch a vector: the system
/// exceptions of the core, then the peripheral interrupts in the order of
/// the reference manual's interrupt map.
#[derive(Clone, Copy, Debug, PartialEq, Eq, Structural)]
pub enum Source {
    /// Reset.
    Reset,
    /// Non-maskable interrupt.
    Nmi,
    /// Hard fault.
    HardFault,
    /// Memory-management fault.
    MemManage,
    /// Bus fault.
    BusFault,
    /// Usage fault.
    UsageFault,
    /// Supervisor call.
    SvCall,
    /// Pending service call.
    PendSv,
    /// System tick timer.
    SysTick,
    Wwdg,
    Pvd,
    TampStamp,
    RtcWkup,
    Flash,
    Rcc,
    Exti0,
    Exti1,
    Exti2,
    Exti3,
    Exti4,
    Dma1Stream0,
    Dma1Stream1,
    Dma1Stream2,
    Dma1Stream3,
    Dma1Stream4,
    Dma1Stream5,
    Dma1Stream6,
    Adc,
    Can1Tx,
    Can1Rx0,
    Can1Rx1,
    Can1Sce,
    Exti9To5,
    Tim1BrkTim9,
    Tim1UpTim10,
    Tim1TrgComTim11,
    Tim1Cc,
    Tim2,
    Tim3,
    Tim4,
    I2c1Ev,
    I2c1Er,
    I2c2Ev,
    I2c2Er,
    Spi1,
    Spi2,
    Usart1,
    Usart2,
    Usart3,
    Exti15To10,
    RtcAlarm,
    OtgFsWkup,
    Tim8BrkTim12,
    Tim8UpTim13,
    Tim8TrgComTim14,
    Tim8Cc,
    Dma1Stream7,
    Fmc,
    Sdmmc1,
    Tim5,
    Spi3,
    Uart4,
    Uart5,
    Tim6Dac,
    Tim7,
    Dma2Stream0,
    Dma2Stream1,
    Dma2Stream2,
    Dma2Stream3,
    Dma2Stream4,
    Eth,
    EthWkup,
    Can2Tx,
    Can2Rx0,
    Can2Rx1,
    Can2Sce,
    OtgFs,
    Dma2Stream5,
    Dma2Stream6,
    Dma2Stream7,
    Usart6,
    I2c3Ev,
    I2c3Er,
    OtgHsEp1Out,
    OtgHsEp1In,
    OtgHsWkup,
    OtgHs,
    Dcmi,
    Cryp,
    HashRng,
    Fpu,
    Uart7,
    Uart8,
    Spi4,
    Spi5,
    Spi6,
    Sai1,
    LcdTft,
    LtdcEr,
    Dma2d,
    Sai2,
    QuadSpi,
    LpTimer1,
    HdmiCec,
    I2c4Ev,
    I2c4Er,
    Spdifrx,
}

/// The exception number of a source: the index of the vector-table slot that
/// the processor reads when the source fires. System exceptions have the
/// numbers that the architecture assigns; peripheral interrupt `n` has
/// number `16 + n`.
pub open spec fn exception_number(s: Source) -> int {
    match s {
        Source::Reset => 1,
        Source::Nmi => 2,
        Source::HardFault => 3,
        Source::MemManage => 4,
        Source::BusFault => 5,
        Source::UsageFault => 6,
        Source::SvCall => 11,
        Source::PendSv => 14,
        Source::SysTick => 15,
        Source::Wwdg => 16,
        Source::Pvd => 17,
        Source::TampStamp => 18,
        Source::RtcWkup => 19,
        Source::Flash => 20,
        Source::Rcc => 21,
        Source::Exti0 => 22,
        Source::Exti1 => 23,
        Source::Exti2 => 24,
        Source::Exti3 => 25,
        Source::Exti4 => 26,
        Source::Dma1Stream0 => 27,
        Source::Dma1Stream1 => 28,
        Source::Dma1Stream2 => 29,
        Source::Dma1Stream3 => 30,
        Source::Dma1Stream4 => 31,
        Source::Dma1Stream5 => 32,
        Source::Dma1Stream6 => 33,
        Source::Adc => 34,
        Source::Can1Tx => 35,
        Source::Can1Rx0 => 36,
        Source::Can1Rx1 => 37,
        Source::Can1Sce => 38,
        Source::Exti9To5 => 39,
        Source::Tim1BrkTim9 => 40,
        Source::Tim1UpTim10 => 41,
        Source::Tim1TrgComTim11 => 42,
        Source::Tim1Cc => 43,
        Source::Tim2 => 44,
        Source::Tim3 => 45,
        Source::Tim4 => 46,
        Source::I2c1Ev => 47,
        Source::I2c1Er => 48,
        Source::I2c2Ev => 49,
        Source::I2c2Er => 50,
        Source::Spi1 => 51,
        Source::Spi2 => 52,
        Source::Usart1 => 53,
        Source::Usart2 => 54,
        Source::Usart3 => 55,
        Source::Exti15To10 => 56,
        Source::RtcAlarm => 57,
        Source::OtgFsWkup => 58,
        Source::Tim8BrkTim12 => 59,
        Source::Tim8UpTim13 => 60,
        Source::Tim8TrgComTim14 => 61,
        Source::Tim8Cc => 62,
        Source::Dma1Stream7 => 63,
        Source::Fmc => 64,
        Source::Sdmmc1 => 65,
        Source::Tim5 => 66,
        Source::Spi3 => 67,
        Source::Uart4 => 68,
        Source::Uart5 => 69,
        Source::Tim6Dac => 70,
        Source::Tim7 => 71,
        Source::Dma2Stream0 => 72,
        Source::Dma2Stream1 => 73,
        Source::Dma2Stream2 => 74,
        Source::Dma2Stream3 => 75,
        Source::Dma2Stream4 => 76,
        Source::Eth => 77,
        Source::EthWkup => 78,
        Source::Can2Tx => 79,
        Source::Can2Rx0 => 80,
        Source::Can2Rx1 => 81,
        Source::Can2Sce => 82,
        Source::OtgFs => 83,
        Source::Dma2Stream5 => 84,
        Source::Dma2Stream6 => 85,
        Source::Dma2Stream7 => 86,
        Source::Usart6 => 87,
        Source::I2c3Ev => 88,
        Source::I2c3Er => 89,
        Source::OtgHsEp1Out => 90,
        Source::OtgHsEp1In => 91,
        Source::OtgHsWkup => 92,
        Source::OtgHs => 93,
        Source::Dcmi => 94,
        Source::Cryp => 95,
        Source::HashRng => 96,
        Source::Fpu => 97,
        Source::Uart7 => 98,
        Source::Uart8 => 99,
        Source::Spi4 => 100,
        Source::Spi5 => 101,
        Source::Spi6 => 102,
        Source::Sai1 => 103,
        Source::LcdTft => 104,
        Source::LtdcEr => 105,
        Source::Dma2d => 106,
        Source::Sai2 => 107,
        Source::QuadSpi => 108,
        Source::LpTimer1 => 109,
        Source::HdmiCec => 110,
        Source::I2c4Ev => 111,
        Source::I2c4Er => 112,
        Source::Spdifrx => 113,
    }
}

/// The linker symbol of the handler of a source.
pub open spec fn handler_symbol(s: Source) -> Seq<char> {
    match s {
        Source::Reset => "reset_handler"@,
        Source::Nmi => "nmi_handler"@,
        Source::HardFault => "hardfault_handler"@,
        Source::MemManage => "MemManage_Handler"@,
        Source::BusFault => "BusFault_Handler"@,
        Source::UsageFault => "UsageFault_Handler"@,
        Source::SvCall => "SVCall_Handler"@,
        Source::PendSv => "PendSV_Handler"@,
        Source::SysTick => "SysTick_Handler"@,
        Source::Wwdg => "WWDG_Handler"@,
        Source::Pvd => "PVD_Handler"@,
        Source::TampStamp => "TAMP_STAMP_Handler"@,
        Source::RtcWkup => "RTC_WKUP_Handler"@,
        Source::Flash => "FLASH_Handler"@,
        Source::Rcc => "RCC_Handler"@,
        Source::Exti0 => "EXTI0_Handler"@,
        Source::Exti1 => "EXTI1_Handler"@,
        Source::Exti2 => "EXTI2_Handler"@,
        Source::Exti3 => "EXTI3_Handler"@,
        Source::Exti4 => "EXTI4_Handler"@,
        Source::Dma1Stream0 => "DMA1_Stream0_Handler"@,
        Source::Dma1Stream1 => "DMA1_Stream1_Handler"@,
        Source::Dma1Stream2 => "DMA1_Stream2_Handler"@,
        Source::Dma1Stream3 => "DMA1_Stream3_Handler"@,
        Source::Dma1Stream4 => "DMA1_Stream4_Handler"@,
        Source::Dma1Stream5 => "DMA1_Stream5_Handler"@,
        Source::Dma1Stream6 => "DMA1_Stream6_Handler"@,
        Source::Adc => "ADC_Handler"@,
        Source::Can1Tx => "CAN1_TX_Handler"@,
        Source::Can1Rx0 => "CAN1_RX0_Handler"@,
        Source::Can1Rx1 => "CAN1_RX1_Handler"@,
        Source::Can1Sce => "CAN1_SCE_Handler"@,
        Source::Exti9To5 => "EXTI9_5_Handler"@,
        Source::Tim1BrkTim9 => "TIM1_BRK_TIM9_Handler"@,
        Source::Tim1UpTim10 => "TIM1_UP_TIM10_Handler"@,
        Source::Tim1TrgComTim11 => "TIM1_TRG_COM_TIM11_Handler"@,
        Source::Tim1Cc => "TIM1_CC_Handler"@,
        Source::Tim2 => "TIM2_Handler"@,
        Source::Tim3 => "TIM3_Handler"@,
        Source::Tim4 => "TIM4_Handler"@,
        Source::I2c1Ev => "I2C1_EV_Handler"@,
        Source::I2c1Er => "I2C1_ER_Handler"@,
        Source::I2c2Ev => "I2C2_EV_Handler"@,
        Source::I2c2Er => "I2C2_ER_Handler"@,
        Source::Spi1 => "SPI1_Handler"@,
        Source::Spi2 => "SPI2_Handler"@,
        Source::Usart1 => "USART1_Handler"@,
        Source::Usart2 => "USART2_Handler"@,
        Source::Usart3 => "USART3_Handler"@,
        Source::Exti15To10 => "EXTI15_10_Handler"@,
        Source::RtcAlarm => "RTC_ALARM_Handler"@,
        Source::OtgFsWkup => "OTG_FS_WKUP_Handler"@,
        Source::Tim8BrkTim12 => "TIM8_BRK_TIM12_Handler"@,
        Source::Tim8UpTim13 => "TIM8_UP_TIM13_Handler"@,
        Source::Tim8TrgComTim14 => "TIM8_TRG_COM_TIM14_Handler"@,
        Source::Tim8Cc => "TIM8_CC_Handler"@,
        Source::Dma1Stream7 => "DMA1_Stream7_Handler"@,
        Source::Fmc => "FMC_Handler"@,
        Source::Sdmmc1 => "SDMMC1_Handler"@,
        Source::Tim5 => "TIM5_Handler"@,
        Source::Spi3 => "SPI3_Handler"@,
        Source::Uart4 => "UART4_Handler"@,
        Source::Uart5 => "UART5_Handler"@,
        Source::Tim6Dac => "TIM6_DAC_Handler"@,
        Source::Tim7 => "TIM7_Handler"@,
        Source::Dma2Stream0 => "DMA2_Stream0_Handler"@,
        Source::Dma2Stream1 => "DMA2_Stream1_Handler"@,
        Source::Dma2Stream2 => "DMA2_Stream2_Handler"@,
        Source::Dma2Stream3 => "DMA2_Stream3_Handler"@,
        Source::Dma2Stream4 => "DMA2_Stream4_Handler"@,
        Source::Eth => "ETH_Handler"@,
        Source::EthWkup => "ETH_WKUP_Handler"@,
        Source::Can2Tx => "CAN2_TX_Handler"@,
        Source::Can2Rx0 => "CAN2_RX0_Handler"@,
        Source::Can2Rx1 => "CAN2_RX1_Handler"@,
        Source::Can2Sce => "CAN2_SCE_Handler"@,
        Source::OtgFs => "OTG_FS_Handler"@,
        Source::Dma2Stream5 => "DMA2_Stream5_Handler"@,
        Source::Dma2Stream6 => "DMA2_Stream6_Handler"@,
        Source::Dma2Stream7 => "DMA2_Stream7_Handler"@,
        Source::Usart6 => "USART6_Handler"@,
        Source::I2c3Ev => "I2C3_EV_Handler"@,
        Source::I2c3Er => "I2C3_ER_Handler"@,
        Source::OtgHsEp1Out => "OTG_HS_EP1_OUT_Handler"@,
        Source::OtgHsEp1In => "OTG_HS_EP1_IN_Handler"@,
        Source::OtgHsWkup => "OTG_HS_WKUP_Handler"@,
        Source::OtgHs => "OTG_HS_Handler"@,
        Source::Dcmi => "DCMI_Handler"@,
        Source::Cryp => "CRYP_Handler"@,
        Source::HashRng => "HASH_RNG_Handler"@,
        Source::Fpu => "FPU_Handler"@,
        Source::Uart7 => "UART7_Handler"@,
        Source::Uart8 => "UART8_Handler"@,
        Source::Spi4 => "SPI4_Handler"@,
        Source::Spi5 => "SPI5_Handler"@,
        Source::Spi6 => "SPI6_Handler"@,
        Source::Sai1 => "SAI1_Handler"@,
        Source::LcdTft => "LCD_TFT_Handler"@,
        Source::LtdcEr => "LTDC_ER_Handler"@,
        Source::Dma2d => "DMA2D_Handler"@,
        Source::Sai2 => "SAI2_Handler"@,
        Source::QuadSpi => "QuadSPI_Handler"@,
        Source::LpTimer1 => "LPTimer1_Handler"@,
        Source::HdmiCec => "HDMI_CEC_Handler"@,
        Source::I2c4Ev => "I2C4_EV_Handler"@,
        Source::I2c4Er => "I2C4_ER_Handler"@,
        Source::Spdifrx => "SPDIFRX_Handler"@,
    }
}

/// The source assigned to slot `i`, if any source is.
pub open spec fn source_at(i: int) -> Option<Source> {
    if exists|s: Source| exception_number(s) == i {
        Some(choose|s: Source| exception_number(s) == i)
    } else {
        None
    }
}

/// Whether slot `i` is one of the architecturally reserved system slots.
pub open spec fn is_reserved(i: int) -> bool {
    (7 <= i <= 10) || i == 12 || i == 13
}

/// No two sources share a slot.
pub proof fn lemma_exception_number_injective(a: Source, b: Source)
    requires
        exception_number(a) == exception_number(b),
    ensures
        a == b,
{
}

/// Every exception number is a slot of the table other than slot 0.
pub proof fn lemma_exception_number_range(s: Source)
    ensures
        1 <= exception_number(s) < TABLE_LEN,
        !is_reserved(exception_number(s)),
{
}

/// Looking up the slot of a source gives that source back.
pub proof fn lemma_source_at_exception_number(s: Source)
    ensures
        source_at(exception_number(s)) == Some(s),
{
    let i = exception_number(s);
    let t = choose|t: Source| exception_number(t) == i;
    lemma_exception_number_injective(t, s);
}

/// A slot has a source exactly when it lies in the table, is not slot 0
/// and is not reserved.
pub proof fn lemma_source_at_defined(i: int)
    ensures
        source_at(i).is_some() <==> 1 <= i < TABLE_LEN && !is_reserved(i),
{
    if source_at(i).is_some() {
        lemma_exception_number_range(source_at(i).unwrap());
    }
    if 1 <= i < TABLE_LEN && !is_reserved(i) {
        // Naming the slot of each source gives the solver its witnesses.
        assert(exception_number(Source::Reset) == 1);
        assert(exception_number(Source::Nmi) == 2);
        assert(exception_number(Source::HardFault) == 3);
        assert(exception_number(Source::MemManage) == 4);
        assert(exception_number(Source::BusFault) == 5);
        assert(exception_number(Source::UsageFault) == 6);
        assert(exception_number(Source::SvCall) == 11);
        assert(exception_number(Source::PendSv) == 14);
        assert(exception_number(Source::SysTick) == 15);
        assert(exception_number(Source::Wwdg) == 16);
        assert(exception_number(Source::Pvd) == 17);
        assert(exception_number(Source::TampStamp) == 18);
        assert(exception_number(Source::RtcWkup) == 19);
        assert(exception_number(Source::Flash) == 20);
        assert(exception_number(Source::Rcc) == 21);
        assert(exception_number(Source::Exti0) == 22);
        assert(exception_number(Source::Exti1) == 23);
        assert(exception_number(Source::Exti2) == 24);
        assert(exception_number(Source::Exti3) == 25);
        assert(exception_number(Source::Exti4) == 26);
        assert(exception_number(Source::Dma1Stream0) == 27);
        assert(exception_number(Source::Dma1Stream1) == 28);
        assert(exception_number(Source::Dma1Stream2) == 29);
        assert(exception_number(Source::Dma1Stream3) == 30);
        assert(exception_number(Source::Dma1Stream4) == 31);
        assert(exception_number(Source::Dma1Stream5) == 32);
        assert(exception_number(Source::Dma1Stream6) == 33);
        assert(exception_number(Source::Adc) == 34);
        assert(exception_number(Source::Can1Tx) == 35);
        assert(exception_number(Source::Can1Rx0) == 36);
        assert(exception_number(Source::Can1Rx1) == 37);
        assert(exception_number(Source::Can1Sce) == 38);
        assert(exception_number(Source::Exti9To5) == 39);
        assert(exception_number(Source::Tim1BrkTim9) == 40);
        assert(exception_number(Source::Tim1UpTim10) == 41);
        assert(exception_number(Source::Tim1TrgComTim11) == 42);
        assert(exception_number(Source::Tim1Cc) == 43);
        assert(exception_number(Source::Tim2) == 44);
        assert(exception_number(Source::Tim3) == 45);
        assert(exception_number(Source::Tim4) == 46);
        assert(exception_number(Source::I2c1Ev) == 47);
        assert(exception_number(Source::I2c1Er) == 48);
        assert(exception_number(Source::I2c2Ev) == 49);
        assert(exception_number(Source::I2c2Er) == 50);
        assert(exception_number(Source::Spi1) == 51);
        assert(exception_number(Source::Spi2) == 52);
        assert(exception_number(Source::Usart1) == 53);
        assert(exception_number(Source::Usart2) == 54);
        assert(exception_number(Source::Usart3) == 55);
        assert(exception_number(Source::Exti15To10) == 56);
        assert(exception_number(Source::RtcAlarm) == 57);
        assert(exception_number(Source::OtgFsWkup) == 58);
        assert(exception_number(Source::Tim8BrkTim12) == 59);
        assert(exception_number(Source::Tim8UpTim13) == 60);
        assert(exception_number(Source::Tim8TrgComTim14) == 61);
        assert(exception_number(Source::Tim8Cc) == 62);
        assert(exception_number(Source::Dma1Stream7) == 63);
        assert(exception_number(Source::Fmc) == 64);
        assert(exception_number(Source::Sdmmc1) == 65);
        assert(exception_number(Source::Tim5) == 66);
        assert(exception_number(Source::Spi3) == 67);
        assert(exception_number(Source::Uart4) == 68);
        assert(exception_number(Source::Uart5) == 69);
        assert(exception_number(Source::Tim6Dac) == 70);
        assert(exception_number(Source::Tim7) == 71);
        assert(exception_number(Source::Dma2Stream0) == 72);
        assert(exception_number(Source::Dma2Stream1) == 73);
        assert(exception_number(Source::Dma2Stream2) == 74);
        assert(exception_number(Source::Dma2Stream3) == 75);
        assert(exception_number(Source::Dma2Stream4) == 76);
        assert(exception_number(Source::Eth) == 77);
        assert(exception_number(Source::EthWkup) == 78);
        assert(exception_number(Source::Can2Tx) == 79);
        assert(exception_number(Source::Can2Rx0) == 80);
        assert(exception_number(Source::Can2Rx1) == 81);
        assert(exception_number(Source::Can2Sce) == 82);
        assert(exception_number(Source::OtgFs) == 83);
        assert(exception_number(Source::Dma2Stream5) == 84);
        assert(exception_number(Source::Dma2Stream6) == 85);
        assert(exception_number(Source::Dma2Stream7) == 86);
        assert(exception_number(Source::Usart6) == 87);
        assert(exception_number(Source::I2c3Ev) == 88);
        assert(exception_number(Source::I2c3Er) == 89);
        assert(exception_number(Source::OtgHsEp1Out) == 90);
        assert(exception_number(Source::OtgHsEp1In) == 91);
        assert(exception_number(Source::OtgHsWkup) == 92);
        assert(exception_number(Source::OtgHs) == 93);
        assert(exception_number(Source::Dcmi) == 94);
        assert(exception_number(Source::Cryp) == 95);
        assert(exception_number(Source::HashRng) == 96);
        assert(exception_number(Source::Fpu) == 97);
        assert(exception_number(Source::Uart7) == 98);
        assert(exception_number(Source::Uart8) == 99);
        assert(exception_number(Source::Spi4) == 100);
        assert(exception_number(Source::Spi5) == 101);
        assert(exception_number(Source::Spi6) == 102);
        assert(exception_number(Source::Sai1) == 103);
        assert(exception_number(Source::LcdTft) == 104);
        assert(exception_number(Source::LtdcEr) == 105);
        assert(exception_number(Source::Dma2d) == 106);
        assert(exception_number(Source::Sai2) == 107);
        assert(exception_number(Source::QuadSpi) == 108);
        assert(exception_number(Source::LpTimer1) == 109);
        assert(exception_number(Source::HdmiCec) == 110);
        assert(exception_number(Source::I2c4Ev) == 111);
        assert(exception_number(Source::I2c4Er) == 112);
        assert(exception_number(Source::Spdifrx) == 113);
    }
}

impl Source {
    /// The index of the vector-table slot of this source.
    pub fn exception_number(self) -> (n: usize)
        ensures
            n == exception_number(self),
    {
        match self {
            Source::Reset => 1,
            Source::Nmi => 2,
            Source::HardFault => 3,
            Source::MemManage => 4,
            Source::BusFault => 5,
            Source::UsageFault => 6,
            Source::SvCall => 11,
            Source::PendSv => 14,
            Source::SysTick => 15,
            Source::Wwdg => 16,
            Source::Pvd => 17,
            Source::TampStamp => 18,
            Source::RtcWkup => 19,
            Source::Flash => 20,
            Source::Rcc => 21,
            Source::Exti0 => 22,
            Source::Exti1 => 23,
            Source::Exti2 => 24,
            Source::Exti3 => 25,
            Source::Exti4 => 26,
            Source::Dma1Stream0 => 27,
            Source::Dma1Stream1 => 28,
            Source::Dma1Stream2 => 29,
            Source::Dma1Stream3 => 30,
            Source::Dma1Stream4 => 31,
            Source::Dma1Stream5 => 32,
            Source::Dma1Stream6 => 33,
            Source::Adc => 34,
            Source::Can1Tx => 35,
            Source::Can1Rx0 => 36,
            Source::Can1Rx1 => 37,
            Source::Can1Sce => 38,
            Source::Exti9To5 => 39,
            Source::Tim1BrkTim9 => 40,
            Source::Tim1UpTim10 => 41,
            Source::Tim1TrgComTim11 => 42,
            Source::Tim1Cc => 43,
            Source::Tim2 => 44,
            Source::Tim3 => 45,
            Source::Tim4 => 46,
            Source::I2c1Ev => 47,
            Source::I2c1Er => 48,
            Source::I2c2Ev => 49,
            Source::I2c2Er => 50,
            Source::Spi1 => 51,
            Source::Spi2 => 52,
            Source::Usart1 => 53,
            Source::Usart2 => 54,
            Source::Usart3 => 55,
            Source::Exti15To10 => 56,
            Source::RtcAlarm => 57,
            Source::OtgFsWkup => 58,
            Source::Tim8BrkTim12 => 59,
            Source::Tim8UpTim13 => 60,
            Source::Tim8TrgComTim14 => 61,
            Source::Tim8Cc => 62,
            Source::Dma1Stream7 => 63,
            Source::Fmc => 64,
            Source::Sdmmc1 => 65,
            Source::Tim5 => 66,
            Source::Spi3 => 67,
            Source::Uart4 => 68,
            Source::Uart5 => 69,
            Source::Tim6Dac => 70,
            Source::Tim7 => 71,
            Source::Dma2Stream0 => 72,
            Source::Dma2Stream1 => 73,
            Source::Dma2Stream2 => 74,
            Source::Dma2Stream3 => 75,
            Source::Dma2Stream4 => 76,
            Source::Eth => 77,
            Source::EthWkup => 78,
            Source::Can2Tx => 79,
            Source::Can2Rx0 => 80,
            Source::Can2Rx1 => 81,
            Source::Can2Sce => 82,
            Source::OtgFs => 83,
            Source::Dma2Stream5 => 84,
            Source::Dma2Stream6 => 85,
            Source::Dma2Stream7 => 86,
            Source::Usart6 => 87,
            Source::I2c3Ev => 88,
            Source::I2c3Er => 89,
            Source::OtgHsEp1Out => 90,
            Source::OtgHsEp1In => 91,
            Source::OtgHsWkup => 92,
            Source::OtgHs => 93,
            Source::Dcmi => 94,
            Source::Cryp => 95,
            Source::HashRng => 96,
            Source::Fpu => 97,
            Source::Uart7 => 98,
            Source::Uart8 => 99,
            Source::Spi4 => 100,
            Source::Spi5 => 101,
            Source::Spi6 => 102,
            Source::Sai1 => 103,
            Source::LcdTft => 104,
            Source::LtdcEr => 105,
            Source::Dma2d => 106,
            Source::Sai2 => 107,
            Source::QuadSpi => 108,
            Source::LpTimer1 => 109,
            Source::HdmiCec => 110,
            Source::I2c4Ev => 111,
            Source::I2c4Er => 112,
            Source::Spdifrx => 113,
        }
    }

    /// The source whose vector stands in slot `n`, or `None` where no source
    /// has that slot: slot 0, the reserved slots and everything past the end
    /// of the table.
    pub fn from_exception_number(n: usize) -> (r: Option<Source>)
        ensures
            r == source_at(n as int),
    {
        let r = match n {
            1 => Some(Source::Reset),
            2 => Some(Source::Nmi),
            3 => Some(Source::HardFault),
            4 => Some(Source::MemManage),
            5 => Some(Source::BusFault),
            6 => Some(Source::UsageFault),
            11 => Some(Source::SvCall),
            14 => Some(Source::PendSv),
            15 => Some(Source::SysTick),
            16 => Some(Source::Wwdg),
            17 => Some(Source::Pvd),
            18 => Some(Source::TampStamp),
            19 => Some(Source::RtcWkup),
            20 => Some(Source::Flash),
            21 => Some(Source::Rcc),
            22 => Some(Source::Exti0),
            23 => Some(Source::Exti1),
            24 => Some(Source::Exti2),
            25 => Some(Source::Exti3),
            26 => Some(Source::Exti4),
            27 => Some(Source::Dma1Stream0),
            28 => Some(Source::Dma1Stream1),
            29 => Some(Source::Dma1Stream2),
            30 => Some(Source::Dma1Stream3),
            31 => Some(Source::Dma1Stream4),
            32 => Some(Source::Dma1Stream5),
            33 => Some(Source::Dma1Stream6),
            34 => Some(Source::Adc),
            35 => Some(Source::Can1Tx),
            36 => Some(Source::Can1Rx0),
            37 => Some(Source::Can1Rx1),
            38 => Some(Source::Can1Sce),
            39 => Some(Source::Exti9To5),
            40 => Some(Source::Tim1BrkTim9),
            41 => Some(Source::Tim1UpTim10),
            42 => Some(Source::Tim1TrgComTim11),
            43 => Some(Source::Tim1Cc),
            44 => Some(Source::Tim2),
            45 => Some(Source::Tim3),
            46 => Some(Source::Tim4),
            47 => Some(Source::I2c1Ev),
            48 => Some(Source::I2c1Er),
            49 => Some(Source::I2c2Ev),
            50 => Some(Source::I2c2Er),
            51 => Some(Source::Spi1),
            52 => Some(Source::Spi2),
            53 => Some(Source::Usart1),
            54 => Some(Source::Usart2),
            55 => Some(Source::Usart3),
            56 => Some(Source::Exti15To10),
            57 => Some(Source::RtcAlarm),
            58 => Some(Source::OtgFsWkup),
            59 => Some(Source::Tim8BrkTim12),
            60 => Some(Source::Tim8UpTim13),
            61 => Some(Source::Tim8TrgComTim14),
            62 => Some(Source::Tim8Cc),
            63 => Some(Source::Dma1Stream7),
            64 => Some(Source::Fmc),
            65 => Some(Source::Sdmmc1),
            66 => Some(Source::Tim5),
            67 => Some(Source::Spi3),
            68 => Some(Source::Uart4),
            69 => Some(Source::Uart5),
            70 => Some(Source::Tim6Dac),
            71 => Some(Source::Tim7),
            72 => Some(Source::Dma2Stream0),
            73 => Some(Source::Dma2Stream1),
            74 => Some(Source::Dma2Stream2),
            75 => Some(Source::Dma2Stream3),
            76 => Some(Source::Dma2Stream4),
            77 => Some(Source::Eth),
            78 => Some(Source::EthWkup),
            79 => Some(Source::Can2Tx),
            80 => Some(Source::Can2Rx0),
            81 => Some(Source::Can2Rx1),
            82 => Some(Source::Can2Sce),
            83 => Some(Source::OtgFs),
            84 => Some(Source::Dma2Stream5),
            85 => Some(Source::Dma2Stream6),
            86 => Some(Source::Dma2Stream7),
            87 => Some(Source::Usart6),
            88 => Some(Source::I2c3Ev),
            89 => Some(Source::I2c3Er),
            90 => Some(Source::OtgHsEp1Out),
            91 => Some(Source::OtgHsEp1In),
            92 => Some(Source::OtgHsWkup),
            93 => Some(Source::OtgHs),
            94 => Some(Source::Dcmi),
            95 => Some(Source::Cryp),
            96 => Some(Source::HashRng),
            97 => Some(Source::Fpu),
            98 => Some(Source::Uart7),
            99 => Some(Source::Uart8),
            100 => Some(Source::Spi4),
            101 => Some(Source::Spi5),
            102 => Some(Source::Spi6),
            103 => Some(Source::Sai1),
            104 => Some(Source::LcdTft),
            105 => Some(Source::LtdcEr),
            106 => Some(Source::Dma2d),
            107 => Some(Source::Sai2),
            108 => Some(Source::QuadSpi),
            109 => Some(Source::LpTimer1),
            110 => Some(Source::HdmiCec),
            111 => Some(Source::I2c4Ev),
            112 => Some(Source::I2c4Er),
            113 => Some(Source::Spdifrx),
            _ => None,
        };
        proof {
            match r {
                Some(s) => {
                    lemma_source_at_exception_number(s);
                },
                None => {
                    assert forall|s: Source| exception_number(s) != n by {}
                },
            }
        }
        r
    }

    /// The linker symbol under which the handler of this source is looked up.
    pub fn handler_symbol(self) -> (name: &'static str)
        ensures
            name@ == handler_symbol(self),
    {
        match self {
            Source::Reset => "reset_handler",
            Source::Nmi => "nmi_handler",
            Source::HardFault => "hardfault_handler",
            Source::MemManage => "MemManage_Handler",
            Source::BusFault => "BusFault_Handler",
            Source::UsageFault => "UsageFault_Handler",
            Source::SvCall => "SVCall_Handler",
            Source::PendSv => "PendSV_Handler",
            Source::SysTick => "SysTick_Handler",
            Source::Wwdg => "WWDG_Handler",
            Source::Pvd => "PVD_Handler",
            Source::TampStamp => "TAMP_STAMP_Handler",
            Source::RtcWkup => "RTC_WKUP_Handler",
            Source::Flash => "FLASH_Handler",
            Source::Rcc => "RCC_Handler",
            Source::Exti0 => "EXTI0_Handler",
            Source::Exti1 => "EXTI1_Handler",
            Source::Exti2 => "EXTI2_Handler",
            Source::Exti3 => "EXTI3_Handler",
            Source::Exti4 => "EXTI4_Handler",
            Source::Dma1Stream0 => "DMA1_Stream0_Handler",
            Source::Dma1Stream1 => "DMA1_Stream1_Handler",
            Source::Dma1Stream2 => "DMA1_Stream2_Handler",
            Source::Dma1Stream3 => "DMA1_Stream3_Handler",
            Source::Dma1Stream4 => "DMA1_Stream4_Handler",
            Source::Dma1Stream5 => "DMA1_Stream5_Handler",
            Source::Dma1Stream6 => "DMA1_Stream6_Handler",
            Source::Adc => "ADC_Handler",
            Source::Can1Tx => "CAN1_TX_Handler",
            Source::Can1Rx0 => "CAN1_RX0_Handler",
            Source::Can1Rx1 => "CAN1_RX1_Handler",
            Source::Can1Sce => "CAN1_SCE_Handler",
            Source::Exti9To5 => "EXTI9_5_Handler",
            Source::Tim1BrkTim9 => "TIM1_BRK_TIM9_Handler",
            Source::Tim1UpTim10 => "TIM1_UP_TIM10_Handler",
            Source::Tim1TrgComTim11 => "TIM1_TRG_COM_TIM11_Handler",
            Source::Tim1Cc => "TIM1_CC_Handler",
            Source::Tim2 => "TIM2_Handler",
            Source::Tim3 => "TIM3_Handler",
            Source::Tim4 => "TIM4_Handler",
            Source::I2c1Ev => "I2C1_EV_Handler",
            Source::I2c1Er => "I2C1_ER_Handler",
            Source::I2c2Ev => "I2C2_EV_Handler",
            Source::I2c2Er => "I2C2_ER_Handler",
            Source::Spi1 => "SPI1_Handler",
            Source::Spi2 => "SPI2_Handler",
            Source::Usart1 => "USART1_Handler",
            Source::Usart2 => "USART2_Handler",
            Source::Usart3 => "USART3_Handler",
            Source::Exti15To10 => "EXTI15_10_Handler",
            Source::RtcAlarm => "RTC_ALARM_Handler",
            Source::OtgFsWkup => "OTG_FS_WKUP_Handler",
            Source::Tim8BrkTim12 => "TIM8_BRK_TIM12_Handler",
            Source::Tim8UpTim13 => "TIM8_UP_TIM13_Handler",
            Source::Tim8TrgComTim14 => "TIM8_TRG_COM_TIM14_Handler",
            Source::Tim8Cc => "TIM8_CC_Handler",
            Source::Dma1Stream7 => "DMA1_Stream7_Handler",
            Source::Fmc => "FMC_Handler",
            Source::Sdmmc1 => "SDMMC1_Handler",
            Source::Tim5 => "TIM5_Handler",
            Source::Spi3 => "SPI3_Handler",
            Source::Uart4 => "UART4_Handler",
            Source::Uart5 => "UART5_Handler",
            Source::Tim6Dac => "TIM6_DAC_Handler",
            Source::Tim7 => "TIM7_Handler",
            Source::Dma2Stream0 => "DMA2_Stream0_Handler",
            Source::Dma2Stream1 => "DMA2_Stream1_Handler",
            Source::Dma2Stream2 => "DMA2_Stream2_Handler",
            Source::Dma2Stream3 => "DMA2_Stream3_Handler",
            Source::Dma2Stream4 => "DMA2_Stream4_Handler",
            Source::Eth => "ETH_Handler",
            Source::EthWkup => "ETH_WKUP_Handler",
            Source::Can2Tx => "CAN2_TX_Handler",
            Source::Can2Rx0 => "CAN2_RX0_Handler",
            Source::Can2Rx1 => "CAN2_RX1_Handler",
            Source::Can2Sce => "CAN2_SCE_Handler",
            Source::OtgFs => "OTG_FS_Handler",
            Source::Dma2Stream5 => "DMA2_Stream5_Handler",
            Source::Dma2Stream6 => "DMA2_Stream6_Handler",
            Source::Dma2Stream7 => "DMA2_Stream7_Handler",
            Source::Usart6 => "USART6_Handler",
            Source::I2c3Ev => "I2C3_EV_Handler",
            Source::I2c3Er => "I2C3_ER_Handler",
            Source::OtgHsEp1Out => "OTG_HS_EP1_OUT_Handler",
            Source::OtgHsEp1In => "OTG_HS_EP1_IN_Handler",
            Source::OtgHsWkup => "OTG_HS_WKUP_Handler",
            Source::OtgHs => "OTG_HS_Handler",
            Source::Dcmi => "DCMI_Handler",
            Source::Cryp => "CRYP_Handler",
            Source::HashRng => "HASH_RNG_Handler",
            Source::Fpu => "FPU_Handler",
            Source::Uart7 => "UART7_Handler",
            Source::Uart8 => "UART8_Handler",
            Source::Spi4 => "SPI4_Handler",
            Source::Spi5 => "SPI5_Handler",
            Source::Spi6 => "SPI6_Handler",
            Source::Sai1 => "SAI1_Handler",
            Source::LcdTft => "LCD_TFT_Handler",
            Source::LtdcEr => "LTDC_ER_Handler",
            Source::Dma2d => "DMA2D_Handler",
            Source::Sai2 => "SAI2_Handler",
            Source::QuadSpi => "QuadSPI_Handler",
            Source::LpTimer1 => "LPTimer1_Handler",
            Source::HdmiCec => "HDMI_CEC_Handler",
            Source::I2c4Ev => "I2C4_EV_Handler",
            Source::I2c4Er => "I2C4_ER_Handler",
            Source::Spdifrx => "SPDIFRX_Handler",
        }
    }

    /// The interrupt line of a peripheral source as the NVIC numbers it, or
    /// `None` for a system exception.
    pub fn irq(self) -> (r: Option<u8>)
        ensures
            r.is_some() <==> exception_number(self) >= CORE_ENTRIES,
            r.is_some() ==> r.unwrap() == exception_number(self) - CORE_ENTRIES,
    {
        let n: usize = self.exception_number();
        if n >= CORE_ENTRIES {
            proof {
                lemma_exception_number_range(self);
            }
            Some((n - CORE_ENTRIES) as u8)
        } else {
            None
        }
    }
}

} // verus!
