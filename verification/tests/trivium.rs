use blue_avocado::trivium::Trivium;

#[test]
fn new_trivium_sets_iv_and_key() {
    let cipher = Trivium::new([24u8; 10], [42u8; 10]);
    assert_eq!([24u8; 10], cipher.iv);
    assert_eq!([42u8; 10], cipher.key);
}

#[test]
fn trivium_init() {
    let mut cipher = Trivium {
        iv: [24u8; 10],
        key: [42u8; 10],
        r1: [0u8; 12],
        r2: [0u8; 11],
        r3: [0u8; 14],
    };

    cipher.init();

    assert_eq!(
        [24u8, 24u8, 24u8, 24u8, 24u8, 24u8, 24u8, 24u8, 24u8, 24u8, 0u8, 0u8],
        cipher.r1
    );
    assert_eq!(
        [42u8, 42u8, 42u8, 42u8, 42u8, 42u8, 42u8, 42u8, 42u8, 42u8, 0u8],
        cipher.r2
    );
    assert_eq!(
        [0u8, 0u8, 0u8, 0u8, 0u8, 0u8, 0u8, 0u8, 0u8, 0u8, 0u8, 0u8, 0u8, 14u8],
        cipher.r3
    )
}

#[test]
fn new_trivium_warm_up() {
    let cipher = Trivium::new([24u8; 10], [42u8; 10]);
    assert_ne!([24u8; 10], &cipher.r1[..10]);
    assert_ne!([42u8; 10], &cipher.r2[..10]);
}

#[test]
fn shift() {
    let mut r = [129u8, 96u8];
    Trivium::shift(&mut r);
    assert_eq!([64u8, 176u8], r);
}

#[test]
fn trivium_encrypt_and_decrypt() {
    let mut encrypt_cipher = Trivium::new([24u8; 10], [42u8; 10]);
    let encrypted = encrypt_cipher.encrypt("there is no spoon".as_bytes());

    let mut decrypt_cipher = Trivium::new([24u8; 10], [42u8; 10]);
    let decrypted = decrypt_cipher.decrypt(&encrypted);

    assert_eq!("there is no spoon".as_bytes(), decrypted.as_slice());
}

#[test]
fn trivium_identical_instances_agree() {
    // Two freshly constructed instances with the same (IV, key) produce
    // the same keystream, so they encrypt a message identically.
    let mut c1 = Trivium::new([1u8; 10], [2u8; 10]);
    let mut c2 = Trivium::new([1u8; 10], [2u8; 10]);
    let m = [0x5au8; 33];
    assert_eq!(c1.encrypt(&m), c2.encrypt(&m));
}

#[test]
fn trivium_advanced_instance_differs() {
    // An instance that has already produced keystream cannot be reused
    // to decrypt: its registers have advanced.
    let mut c1 = Trivium::new([3u8; 10], [4u8; 10]);
    let r1_before = c1.r1;
    c1.encrypt(&[0u8; 4]);
    assert_ne!(r1_before, c1.r1);
}

#[test]
fn trivium_encrypt_changes_message() {
    let mut c = Trivium::new([24u8; 10], [42u8; 10]);
    let encrypted = c.encrypt("there is no spoon".as_bytes());
    assert_ne!("there is no spoon".as_bytes(), encrypted.as_slice());
}

#[test]
fn trivium_empty_message() {
    let mut c = Trivium::new([24u8; 10], [42u8; 10]);
    let encrypted = c.encrypt(&[]);
    assert_eq!(0, encrypted.len());
}
