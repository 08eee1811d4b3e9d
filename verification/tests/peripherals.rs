use vexide_devices::controller::ControllerId;
use vexide_devices::display::RenderMode;
use vexide_devices::peripherals::{DynamicPeripherals, Peripherals};

#[test]
fn peripherals_are_taken_once() {
    let mut taken = false;
    let p = Peripherals::take(&mut taken);
    assert!(taken);
    let p = p.unwrap();
    assert_eq!(p.port_1.number(), 1);
    assert_eq!(p.port_21.number(), 21);
    assert_eq!(p.adi_h.number(), 8);
    assert_eq!(p.adi_a.expander_number(), None);
    assert_eq!(p.primary_controller.id(), ControllerId::Primary);
    assert_eq!(p.partner_controller.id(), ControllerId::Partner);
    assert_eq!(p.display.render_mode(), RenderMode::Immediate);
    assert!(Peripherals::take(&mut taken).is_none());
    let stolen = Peripherals::steal(&mut taken);
    assert_eq!(stolen.port_5.number(), 5);
}

#[test]
fn dynamic_peripherals_hand_out_each_port_once() {
    let mut taken = false;
    let mut d = DynamicPeripherals::new(Peripherals::steal(&mut taken));
    let p = d.take_smart_port(3).unwrap();
    assert_eq!(p.number(), 3);
    assert!(d.take_smart_port(3).is_none());
    assert!(d.take_smart_port(4).is_some());
    let a = d.take_adi_port(2).unwrap();
    assert_eq!((a.number(), a.expander_number()), (2, None));
    assert!(d.take_adi_port(2).is_none());
    assert!(d.take_display().is_some());
    assert!(d.take_display().is_none());
}

#[test]
fn new_numbers_every_port() {
    let p = Peripherals::new();
    let smart = [
        &p.port_1, &p.port_2, &p.port_3, &p.port_4, &p.port_5, &p.port_6, &p.port_7, &p.port_8,
        &p.port_9, &p.port_10, &p.port_11, &p.port_12, &p.port_13, &p.port_14, &p.port_15,
        &p.port_16, &p.port_17, &p.port_18, &p.port_19, &p.port_20, &p.port_21,
    ];
    for (k, port) in smart.iter().enumerate() {
        assert_eq!(usize::from(port.number()), k + 1);
    }
    let adi = [&p.adi_a, &p.adi_b, &p.adi_c, &p.adi_d, &p.adi_e, &p.adi_f, &p.adi_g, &p.adi_h];
    for (k, port) in adi.iter().enumerate() {
        assert_eq!((usize::from(port.number()), port.expander_number()), (k + 1, None));
    }
    assert_eq!(p.display.render_mode(), RenderMode::Immediate);
}

#[test]
fn adi_claims_leave_smart_claims_alone() {
    let mut taken = false;
    let mut d = DynamicPeripherals::new(Peripherals::steal(&mut taken));
    assert!(d.take_adi_port(5).is_some());
    assert!(d.take_adi_port(5).is_none());
    assert!(d.take_smart_port(5).is_some());
}
