use rtos_core::button::init_user_button;
use rtos_core::cortex_m4::{
    disable_global_interrupt, disable_irq, enable_global_interrupt, enable_irq,
    set_interrupt_priority, set_interrupt_priority_grouping, Cpu, Nvic, Scb,
};
use rtos_core::exti::{
    clear_exti_pending, configure_gpio_interrupt, configure_interrupt_mask_register, Exti, Syscfg,
};
use rtos_core::gpio::{
    gpio_configure_mode, gpio_output_speed_configure, gpio_output_type_configure,
    gpio_pulup_puldown_configure, gpio_read, gpio_write, select_gpio_base, toggle_gpio, GpioPort,
};
use rtos_core::led::{
    init_led, led1_on, led1_toggle, led2_on, led2_toggle, led3_on, led3_toggle, led4_on,
    led4_toggle,
};
use rtos_core::os::schedule;
use rtos_core::read_write::{reg_read_bit_value, reg_write_bit, reg_write_bits};
use rtos_core::stm32f407_registers::Rcc;
use rtos_core::systick::{ClockSource, SysTick};

fn fresh_cpu() -> Cpu {
    Cpu {
        r4: 0,
        r5: 0,
        r6: 0,
        r7: 0,
        r8: 0,
        r9: 0,
        r10: 0,
        r11: 0,
        psp: 0,
        msp: 0,
        process_stack_active: false,
        primask: false,
    }
}

#[test]
fn write_bits_replaces_only_the_field() {
    assert_eq!(reg_write_bits(0xFFFF_FFFF, 0b01, 4, 2), 0xFFFF_FFDF);
    assert_eq!(reg_write_bits(0x0000_0000, 0b11, 30, 2), 0xC000_0000);
    assert_eq!(reg_write_bits(0x1234_5678, 0xDEAD_BEEF, 0, 32), 0xDEAD_BEEF);
    assert_eq!(reg_write_bits(0xFFFF_FFFF, 0, 8, 8), 0xFFFF_00FF);
    assert_eq!(reg_write_bits(0x0000_00F0, 0xFF, 0, 4), 0x0000_00FF);
}

#[test]
fn write_bit_touches_one_bit() {
    assert_eq!(reg_write_bit(0, 5, true), 0x20);
    assert_eq!(reg_write_bit(0xFFFF_FFFF, 31, false), 0x7FFF_FFFF);
    assert_eq!(reg_write_bit(0x20, 5, true), 0x20);
}

#[test]
fn read_bit_value() {
    assert!(reg_read_bit_value(0x20, 5));
    assert!(!reg_read_bit_value(0x20, 4));
    assert!(reg_read_bit_value(0x8000_0000, 31));
}

#[test]
fn gpio_bases() {
    assert_eq!(select_gpio_base(0), 0x4002_0000);
    assert_eq!(select_gpio_base(3), 0x4002_0C00);
    assert_eq!(select_gpio_base(8), 0x4002_2000);
}

#[test]
fn gpio_mode_and_clock() {
    let mut rcc = Rcc::new();
    let mut gpio = GpioPort::new();
    gpio_configure_mode(&mut rcc, &mut gpio, 3, 12, 1);
    assert_eq!(rcc.ahb1enr, 1 << 3);
    assert_eq!(gpio.moder, 0b01 << 24);
    gpio_configure_mode(&mut rcc, &mut gpio, 3, 12, 3);
    assert_eq!(gpio.moder, 0b11 << 24);
    gpio_configure_mode(&mut rcc, &mut gpio, 3, 12, 0);
    assert_eq!(gpio.moder, 0);
}

#[test]
fn gpio_output_configuration() {
    let mut gpio = GpioPort::new();
    gpio_output_type_configure(&mut gpio, 5, 1);
    assert_eq!(gpio.otyper, 1 << 5);
    gpio_output_speed_configure(&mut gpio, 2, 3);
    assert_eq!(gpio.ospeedr, 0b11 << 4);
    gpio_pulup_puldown_configure(&mut gpio, 1, 2);
    assert_eq!(gpio.pupdr, 0b10 << 2);
}

#[test]
fn gpio_write_toggle_read() {
    let mut gpio = GpioPort::new();
    gpio_write(&mut gpio, 12, true);
    assert_eq!(gpio.odr, 1 << 12);
    gpio_write(&mut gpio, 12, false);
    assert_eq!(gpio.odr, 0);
    toggle_gpio(&mut gpio, 7);
    assert_eq!(gpio.odr, 1 << 7);
    toggle_gpio(&mut gpio, 7);
    assert_eq!(gpio.odr, 0);
    gpio.idr = 1 << 4;
    assert!(gpio_read(&gpio, 4));
    assert!(!gpio_read(&gpio, 5));
}

#[test]
fn led_port_layout() {
    let mut rcc = Rcc::new();
    let mut gpio = GpioPort::new();
    init_led(&mut rcc, &mut gpio);
    assert_eq!(rcc.ahb1enr, 1 << 3);
    assert_eq!(gpio.moder, 0x5500_0000);
    assert_eq!(gpio.otyper, 0);
}

#[test]
fn led_init_preserves_other_pins() {
    let mut rcc = Rcc::new();
    rcc.ahb1enr = 1 << 7;
    let mut gpio = GpioPort::new();
    gpio.moder = 0x0000_0A05;
    gpio.otyper = 0x0000_00FF;
    gpio.ospeedr = 0x1234_5678;
    gpio.pupdr = 0x0F0F_0F0F;
    init_led(&mut rcc, &mut gpio);
    assert_eq!(rcc.ahb1enr, (1 << 7) | (1 << 3));
    assert_eq!(gpio.moder, 0x5500_0A05);
    assert_eq!(gpio.otyper, 0x0000_00FF);
    assert_eq!(gpio.ospeedr, 0x1234_5678);
    assert_eq!(gpio.pupdr, 0x0F0F_0F0F);
}

#[test]
fn led_levels() {
    let mut gpio = GpioPort::new();
    led1_on(&mut gpio);
    led2_on(&mut gpio);
    led3_on(&mut gpio);
    led4_on(&mut gpio);
    assert_eq!(gpio.odr, 0xF000);
    led1_toggle(&mut gpio);
    assert_eq!(gpio.odr, 0xE000);
    led2_toggle(&mut gpio);
    led3_toggle(&mut gpio);
    led4_toggle(&mut gpio);
    assert_eq!(gpio.odr, 0);
    led1_toggle(&mut gpio);
    assert_eq!(gpio.odr, 0x1000);
}

#[test]
fn button_pin_is_input() {
    let mut rcc = Rcc::new();
    let mut gpio = GpioPort::new();
    gpio.moder = 0b1100_0011;
    rcc.ahb1enr = 1 << 5;
    init_user_button(&mut rcc, &mut gpio);
    assert_eq!(rcc.ahb1enr, (1 << 5) | 1);
    assert_eq!(gpio.moder, 0b1100_0000);
}

#[test]
fn exti_full_configuration() {
    let mut rcc = Rcc::new();
    let mut syscfg = Syscfg::new();
    let mut exti = Exti::new();
    let mut nvic = Nvic::new();
    configure_gpio_interrupt(&mut rcc, &mut syscfg, &mut exti, &mut nvic, 0, 0, 0);
    assert_eq!(rcc.apb2enr, 1 << 14);
    assert_eq!(syscfg.exticr[0], 0);
    assert_eq!(exti.imr, 1);
    assert_eq!(exti.rtsr, 1);
    assert_eq!(exti.ftsr, 0);
    assert_eq!(nvic.iser[0], 1 << 6);
}

#[test]
fn exti_line_routing_and_shared_irqs() {
    let mut rcc = Rcc::new();
    let mut syscfg = Syscfg::new();
    let mut exti = Exti::new();
    let mut nvic = Nvic::new();
    configure_gpio_interrupt(&mut rcc, &mut syscfg, &mut exti, &mut nvic, 3, 13, 1);
    assert_eq!(syscfg.exticr[3], 3 << 4);
    assert_eq!(exti.imr, 1 << 13);
    assert_eq!(exti.ftsr, 1 << 13);
    assert_eq!(exti.rtsr, 0);
    assert_eq!(nvic.iser[1], 1 << 8);
}

#[test]
fn exti_mask_and_pending() {
    let mut exti = Exti::new();
    configure_interrupt_mask_register(&mut exti, 9, true);
    assert_eq!(exti.imr, 1 << 9);
    configure_interrupt_mask_register(&mut exti, 9, false);
    assert_eq!(exti.imr, 0);
    clear_exti_pending(&mut exti, 9);
    assert_eq!(exti.pr, 1 << 9);
}

#[test]
fn nvic_enable_disable_priority() {
    let mut nvic = Nvic::new();
    enable_irq(&mut nvic, 6);
    assert_eq!(nvic.iser[0], 1 << 6);
    enable_irq(&mut nvic, 40);
    assert_eq!(nvic.iser[1], 1 << 8);
    disable_irq(&mut nvic, 40);
    assert_eq!(nvic.icer[1], 1 << 8);
    set_interrupt_priority(&mut nvic, 6, 5);
    assert_eq!(nvic.ipr[6], 0x50);
}

#[test]
fn priority_grouping_write_key() {
    let mut scb = Scb::new();
    scb.aircr = 0x0000_0700;
    set_interrupt_priority_grouping(&mut scb, 3);
    assert_eq!(scb.aircr, 0x05FA_0300);
}

#[test]
fn global_interrupt_mask() {
    let mut cpu = fresh_cpu();
    disable_global_interrupt(&mut cpu);
    assert!(cpu.primask);
    enable_global_interrupt(&mut cpu);
    assert!(!cpu.primask);
}

#[test]
fn pend_switch_is_idempotent() {
    let mut scb = Scb::new();
    schedule(&mut scb);
    assert_eq!(scb.icsr, 1 << 28);
    schedule(&mut scb);
    assert_eq!(scb.icsr, 1 << 28);
}

#[test]
fn systick_plain_init() {
    let mut systick = SysTick::new();
    systick.init(7999, ClockSource::Core);
    assert_eq!(systick.st_rvr, 7999);
    assert_eq!(systick.st_cvr, 0);
    assert_eq!(systick.st_csr, 0b101);
    systick.init(0x01FF_FFFF, ClockSource::External);
    assert_eq!(systick.st_rvr, 0x00FF_FFFF);
    assert_eq!(systick.st_csr, 0b001);
}

#[test]
fn systick_delays_program_the_counter() {
    let mut systick = SysTick::new();
    systick.delay_ticks(1000);
    assert_eq!(systick.st_rvr, 999);
    assert_eq!(systick.st_csr, 0);
    systick.delay_us(50, 16);
    assert_eq!(systick.st_rvr, 799);
    systick.delay_ms(1, 16);
    assert_eq!(systick.st_rvr, 15_999);
}

#[test]
fn systick_interrupt_cadence_us() {
    let mut systick = SysTick::new();
    systick.init_systic_interrupt_us(125, 16);
    assert_eq!(systick.st_rvr, 1999);
    assert_eq!(systick.st_csr, 0b111);
}

#[test]
fn systick_flags() {
    let mut systick = SysTick::new();
    systick.st_cvr = 42;
    assert_eq!(systick.current(), 42);
    assert!(!systick.has_wrapped());
    systick.st_csr = 1 << 16;
    assert!(systick.has_wrapped());
}
