use betterdisplay_kvm::identity;
use betterdisplay_kvm::identity::{DeviceIdentity, TargetIdentity};

#[test]
fn render_is_four_lowercase_hex_digits_each() {
    assert_eq!(DeviceIdentity::new(0x046d, 0xc547).render(), "046d:c547");
    assert_eq!(DeviceIdentity::new(0x05ac, 0x12a8).render(), "05ac:12a8");
    assert_eq!(DeviceIdentity::new(0, 0).render(), "0000:0000");
    assert_eq!(DeviceIdentity::new(0xffff, 0xffff).render(), "ffff:ffff");
    assert_eq!(DeviceIdentity::new(0x000a, 0xabcd).render(), "000a:abcd");
    assert_eq!(DeviceIdentity::new(1, 0x0100).render(), "0001:0100");
}

#[test]
fn render_agrees_with_the_formatter() {
    let samples: [u16; 12] = [
        0, 1, 9, 10, 15, 16, 0x00ff, 0x0100, 0x0fff, 0x1000, 0xabcd, 0xffff,
    ];
    for vendor in samples {
        for product in samples {
            assert_eq!(
                DeviceIdentity::new(vendor, product).render(),
                format!("{:04x}:{:04x}", vendor, product)
            );
        }
    }
}

#[test]
fn parse_reads_the_canonical_text() {
    assert_eq!(
        DeviceIdentity::parse("046d:c547"),
        Some(DeviceIdentity::new(0x046d, 0xc547))
    );
    assert_eq!(
        DeviceIdentity::parse("0000:0000"),
        Some(DeviceIdentity::new(0, 0))
    );
    assert_eq!(
        DeviceIdentity::parse("ffff:ffff"),
        Some(DeviceIdentity::new(0xffff, 0xffff))
    );
}

#[test]
fn parse_ignores_the_case_of_letters() {
    let want = Some(DeviceIdentity::new(0x046d, 0xc547));
    assert_eq!(DeviceIdentity::parse("046D:C547"), want);
    assert_eq!(DeviceIdentity::parse("046d:C547"), want);
    assert_eq!(DeviceIdentity::parse("046D:c547"), want);
    assert_eq!(
        DeviceIdentity::parse("ABCD:EF01"),
        Some(DeviceIdentity::new(0xabcd, 0xef01))
    );
}

#[test]
fn parse_refuses_what_is_no_identity() {
    assert_eq!(DeviceIdentity::parse(""), None);
    assert_eq!(DeviceIdentity::parse("046d"), None);
    assert_eq!(DeviceIdentity::parse("046d:c54"), None);
    assert_eq!(DeviceIdentity::parse("046d:c5477"), None);
    assert_eq!(DeviceIdentity::parse("046d-c547"), None);
    assert_eq!(DeviceIdentity::parse("046dc5477"), None);
    assert_eq!(DeviceIdentity::parse("046g:c547"), None);
    assert_eq!(DeviceIdentity::parse("046d:c54z"), None);
    assert_eq!(DeviceIdentity::parse(" 46d:c547"), None);
    assert_eq!(DeviceIdentity::parse("0x46:c547"), None);
    assert_eq!(DeviceIdentity::parse("046d:c54\u{e9}"), None);
    assert_eq!(DeviceIdentity::parse("****:****"), None);
    assert_eq!(DeviceIdentity::parse("46d:c547"), None);
}

#[test]
fn parse_gives_back_what_render_wrote() {
    let samples: [u16; 8] = [0, 7, 0x0a0b, 0x046d, 0x8000, 0xc547, 0xfffe, 0xffff];
    for vendor in samples {
        for product in samples {
            let device = DeviceIdentity::new(vendor, product);
            assert_eq!(DeviceIdentity::parse(&device.render()), Some(device));
            assert_eq!(
                DeviceIdentity::parse(&device.render().to_uppercase()),
                Some(device)
            );
        }
    }
}

#[test]
fn matches_is_exact_equality_of_both_numbers() {
    let target = TargetIdentity::parse("046d:c547");
    assert_eq!(target.wanted, Some(DeviceIdentity::new(0x046d, 0xc547)));
    assert!(identity::matches(DeviceIdentity::new(0x046d, 0xc547), &target));
    assert!(!identity::matches(DeviceIdentity::new(0x046d, 0xc548), &target));
    assert!(!identity::matches(DeviceIdentity::new(0x046e, 0xc547), &target));
    assert!(!identity::matches(DeviceIdentity::new(0xc547, 0x046d), &target));
    assert!(!identity::matches(DeviceIdentity::new(0x05ac, 0x12a8), &target));
}

#[test]
fn matches_ignores_the_case_of_the_configured_text() {
    let target = TargetIdentity::parse("046D:C547");
    assert!(identity::matches(DeviceIdentity::new(0x046d, 0xc547), &target));
    assert!(!identity::matches(DeviceIdentity::new(0x046d, 0xc546), &target));
}

#[test]
fn a_target_that_names_nothing_matches_nothing() {
    let target = TargetIdentity::parse("not a device");
    assert_eq!(target.wanted, None);
    assert!(!identity::matches(DeviceIdentity::new(0, 0), &target));
    assert!(!identity::matches(DeviceIdentity::new(0x046d, 0xc547), &target));
    let wildcard = TargetIdentity::parse("046d:*");
    assert_eq!(wildcard.wanted, None);
    assert!(!identity::matches(DeviceIdentity::new(0x046d, 0xc547), &wildcard));
}

#[test]
fn a_target_of_an_identity_matches_that_identity_only() {
    let target = TargetIdentity::of(DeviceIdentity::new(0x05ac, 0x12a8));
    assert!(identity::matches(DeviceIdentity::new(0x05ac, 0x12a8), &target));
    assert!(!identity::matches(DeviceIdentity::new(0x05ac, 0x12a9), &target));
}
