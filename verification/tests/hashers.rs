use password_worker::{Argon2id, Argon2idConfig, Bcrypt, BcryptConfig, Hasher};

fn low_cost(salt: &[u8]) -> Argon2idConfig {
    Argon2idConfig { salt: salt.to_vec(), time_cost: 2, mem_cost: 256, lanes: 1, hash_length: 32 }
}

#[test]
fn argon2id_default_config() {
    let config = Argon2idConfig::default();
    assert!(config.salt.is_empty());
    assert_eq!(config.time_cost, 3);
    assert_eq!(config.mem_cost, 4096);
    assert_eq!(config.lanes, 1);
    assert_eq!(config.hash_length, 32);
}

#[test]
fn argon2id_hash_is_the_known_one() {
    let hashed = Argon2id::hash(b"password", &low_cost(b"somesalt")).unwrap();
    assert_eq!(
        hashed,
        "$argon2id$v=19$m=256,t=2,p=1$c29tZXNhbHQ$nf65EOgLrQMR/uIPnA4rEsF5h7TKyQwu9U1bMCHGi/4"
    );
}

#[test]
fn argon2id_hash_follows_each_field() {
    let base = Argon2id::hash(b"password", &low_cost(b"somesalt")).unwrap();
    let mut config = low_cost(b"somesalt");
    config.time_cost = 3;
    let slower = Argon2id::hash(b"password", &config).unwrap();
    assert!(slower.starts_with("$argon2id$v=19$m=256,t=3,p=1$c29tZXNhbHQ$"));
    assert_ne!(slower, base);

    let mut config = low_cost(b"somesalt");
    config.mem_cost = 512;
    let larger = Argon2id::hash(b"password", &config).unwrap();
    assert!(larger.starts_with("$argon2id$v=19$m=512,t=2,p=1$c29tZXNhbHQ$"));

    let mut config = low_cost(b"somesalt");
    config.hash_length = 16;
    let shorter = Argon2id::hash(b"password", &config).unwrap();
    assert_eq!(shorter.len(), base.len() - 21);

    let other_salt = Argon2id::hash(b"password", &low_cost(b"diffsalt")).unwrap();
    assert!(other_salt.starts_with("$argon2id$v=19$m=256,t=2,p=1$ZGlmZnNhbHQ$"));
}

#[test]
fn argon2id_hash_with_default_costs() {
    let config = Argon2idConfig { salt: b"deadbeef".to_vec(), ..Default::default() };
    let hashed = Argon2id::hash(b"hunter2", &config).unwrap();
    assert!(hashed.starts_with("$argon2id$v=19$m=4096,t=3,p=1$ZGVhZGJlZWY$"));
    assert_eq!(Argon2id::verify(b"hunter2", &hashed), Ok(true));
}

#[test]
fn argon2id_hash_verifies() {
    for password in [&b"hunter2"[..], b"", b"$argon2id$", b"\x00\xff binary \x80"] {
        let hashed = Argon2id::hash(password, &low_cost(b"0123456789abcdef")).unwrap();
        assert_eq!(Argon2id::verify(password, &hashed), Ok(true));
    }
}

#[test]
fn argon2id_refuses_another_password() {
    let hashed = Argon2id::hash(b"hunter2", &low_cost(b"somesalt")).unwrap();
    assert_eq!(Argon2id::verify(b"wrong", &hashed), Ok(false));
    assert_eq!(Argon2id::verify(b"hunter", &hashed), Ok(false));
    assert_eq!(Argon2id::verify(b"hunter22", &hashed), Ok(false));
    assert_eq!(Argon2id::verify(b"", &hashed), Ok(false));
}

#[test]
fn argon2id_hash_is_not_the_password() {
    for password in [&b"hunter2"[..], b"", b"x"] {
        let hashed = Argon2id::hash(password, &low_cost(b"somesalt")).unwrap();
        assert!(hashed.starts_with('$'));
        assert_ne!(hashed.as_bytes(), password);
    }
}

#[test]
fn argon2id_same_input_same_hash() {
    let first = Argon2id::hash(b"hunter2", &low_cost(b"somesalt")).unwrap();
    let second = Argon2id::hash(b"hunter2", &low_cost(b"somesalt")).unwrap();
    assert_eq!(first, second);
}

#[test]
fn argon2id_salt_too_short() {
    assert_eq!(Argon2id::hash(b"hunter2", &low_cost(b"1234567")), Err(argon2::Error::SaltTooShort));
    assert_eq!(
        Argon2id::hash(b"hunter2", &Argon2idConfig::default()),
        Err(argon2::Error::SaltTooShort)
    );
    assert!(Argon2id::hash(b"hunter2", &low_cost(b"12345678")).is_ok());
}

#[test]
fn argon2id_memory_too_little() {
    let mut config = low_cost(b"somesalt");
    config.mem_cost = 7;
    assert_eq!(Argon2id::hash(b"hunter2", &config), Err(argon2::Error::MemoryTooLittle));
    config.mem_cost = 8;
    assert!(Argon2id::hash(b"hunter2", &config).is_ok());
}

#[test]
fn argon2id_time_too_small() {
    let mut config = low_cost(b"somesalt");
    config.time_cost = 0;
    assert_eq!(Argon2id::hash(b"hunter2", &config), Err(argon2::Error::TimeTooSmall));
    config.time_cost = 1;
    assert!(Argon2id::hash(b"hunter2", &config).is_ok());
}

#[test]
fn argon2id_output_too_short() {
    let mut config = low_cost(b"somesalt");
    config.hash_length = 3;
    assert_eq!(Argon2id::hash(b"hunter2", &config), Err(argon2::Error::OutputTooShort));
    config.hash_length = 4;
    assert!(Argon2id::hash(b"hunter2", &config).is_ok());
}

#[test]
fn argon2id_first_complaint_wins() {
    let mut config =
        Argon2idConfig { salt: Vec::new(), time_cost: 0, mem_cost: 0, lanes: 0, hash_length: 0 };
    assert_eq!(Argon2id::hash(b"hunter2", &config), Err(argon2::Error::LanesTooFew));
    config.lanes = 1;
    assert_eq!(Argon2id::hash(b"hunter2", &config), Err(argon2::Error::MemoryTooLittle));
    config.mem_cost = 8;
    assert_eq!(Argon2id::hash(b"hunter2", &config), Err(argon2::Error::TimeTooSmall));
    config.time_cost = 1;
    assert_eq!(Argon2id::hash(b"hunter2", &config), Err(argon2::Error::SaltTooShort));
    config.salt = b"somesalt".to_vec();
    assert_eq!(Argon2id::hash(b"hunter2", &config), Err(argon2::Error::OutputTooShort));
    config.hash_length = 4;
    assert!(Argon2id::hash(b"hunter2", &config).is_ok());
}

#[test]
fn argon2id_lanes() {
    let mut config = low_cost(b"somesalt");
    config.lanes = 2;
    let hashed = Argon2id::hash(b"password", &config).unwrap();
    assert_eq!(
        hashed,
        "$argon2id$v=19$m=256,t=2,p=2$c29tZXNhbHQ$bQk8UB/VmZZF4Oo79iDXuL5/0ttZwg2f/5U52iv1cDc"
    );
    assert_eq!(Argon2id::verify(b"password", &hashed), Ok(true));
    assert_eq!(Argon2id::verify(b"passwore", &hashed), Ok(false));

    config.lanes = 0;
    assert_eq!(Argon2id::hash(b"password", &config), Err(argon2::Error::LanesTooFew));
    config.lanes = 0x0100_0000;
    assert_eq!(Argon2id::hash(b"password", &config), Err(argon2::Error::LanesTooMany));
    config.lanes = 33;
    assert_eq!(Argon2id::hash(b"password", &config), Err(argon2::Error::MemoryTooLittle));
    config.lanes = 32;
    let widest = Argon2id::hash(b"password", &config).unwrap();
    assert!(widest.starts_with("$argon2id$v=19$m=256,t=2,p=32$"));
    assert_eq!(Argon2id::verify(b"password", &widest), Ok(true));
}

#[test]
fn argon2id_verify_many_lanes() {
    let documented = "$argon2i$v=19$m=4096,t=3,p=4$YWJjZGVmZ2hpamtsbW5vcHFyc3R1dnd4eXo$\
                      BvBk2OaSofBHfbrUW61nHrWB/43xgfs/QJJ5DkMAd8I";
    assert_eq!(Argon2id::verify(b"foo", documented), Ok(true));
    assert_eq!(Argon2id::verify(b"bar", documented), Ok(false));
}

#[test]
fn argon2id_verify_cut_hash() {
    let hashed = Argon2id::hash(b"hunter2", &low_cost(b"somesalt")).unwrap();
    let dollars: Vec<usize> = hashed.match_indices('$').map(|(at, _)| at).collect();
    assert_eq!(dollars.len(), 5);
    for cut in 0..=dollars[4] {
        assert_eq!(
            Argon2id::verify(b"hunter2", &hashed[..cut]),
            Err(argon2::Error::DecodingFail)
        );
    }
    for extra in ["$", "$$", "$x"] {
        let longer = format!("{hashed}{extra}");
        assert_eq!(Argon2id::verify(b"hunter2", &longer), Err(argon2::Error::DecodingFail));
    }
    assert_eq!(Argon2id::verify(b"hunter2", "$$$$$$$"), Err(argon2::Error::DecodingFail));
    assert_eq!(Argon2id::verify(b"hunter2", "x$a$b$c$d$e"), Err(argon2::Error::DecodingFail));
}

#[test]
fn argon2id_verify_takes_other_variants() {
    let documented =
        "$argon2i$v=19$m=4096,t=3,p=1$c29tZXNhbHQ$iWh06vD8Fy27wf9npn6FXWiCX4K6pW6Ue1Bnzz07Z8A";
    assert_eq!(Argon2id::verify(b"password", documented), Ok(true));
    assert_eq!(Argon2id::verify(b"Password", documented), Ok(false));
}

#[test]
fn argon2id_verify_malformed_hash() {
    let hashed = Argon2id::hash(b"hunter2", &low_cost(b"somesalt")).unwrap();
    assert_eq!(Argon2id::verify(b"hunter2", ""), Err(argon2::Error::DecodingFail));
    assert_eq!(Argon2id::verify(b"hunter2", "hunter2"), Err(argon2::Error::DecodingFail));
    assert_eq!(Argon2id::verify(b"hunter2", &hashed[1..]), Err(argon2::Error::DecodingFail));
    let truncated = &hashed[..hashed.rfind('$').unwrap()];
    assert_eq!(Argon2id::verify(b"hunter2", truncated), Err(argon2::Error::DecodingFail));
    let corrupted = hashed.replace("$argon2id$", "$argon3id$");
    assert_eq!(Argon2id::verify(b"hunter2", &corrupted), Err(argon2::Error::DecodingFail));
    let bad_version = hashed.replace("v=19", "v=18");
    assert!(Argon2id::verify(b"hunter2", &bad_version).is_err());
}

#[test]
fn bcrypt_hash_shape() {
    for (cost, head) in [(4, "$2b$04$"), (5, "$2b$05$"), (9, "$2b$09$"), (10, "$2b$10$")] {
        let hashed = Bcrypt::hash(b"hunter2", &BcryptConfig { cost }).unwrap();
        assert_eq!(hashed.len(), 60);
        assert!(hashed.starts_with(head));
        assert!(hashed[7..]
            .chars()
            .all(|c| c == '.' || c == '/' || c.is_ascii_alphanumeric()));
    }
}

#[test]
fn bcrypt_hash_verifies() {
    for password in [&b"hunter2"[..], b"", b"$2b$04$", b"\xff binary \x80"] {
        let hashed = Bcrypt::hash(password, &BcryptConfig { cost: 4 }).unwrap();
        assert!(Bcrypt::verify(password, &hashed).unwrap());
    }
}

#[test]
fn bcrypt_refuses_another_password() {
    let hashed = Bcrypt::hash(b"hunter2", &BcryptConfig { cost: 4 }).unwrap();
    assert!(!Bcrypt::verify(b"wrong", &hashed).unwrap());
    assert!(!Bcrypt::verify(b"hunter", &hashed).unwrap());
    assert!(!Bcrypt::verify(b"", &hashed).unwrap());
}

#[test]
fn bcrypt_hash_is_not_the_password() {
    for password in [&b"hunter2"[..], b"", b"x"] {
        let hashed = Bcrypt::hash(password, &BcryptConfig { cost: 4 }).unwrap();
        assert!(hashed.starts_with('$'));
        assert_ne!(hashed.as_bytes(), password);
    }
}

#[test]
fn bcrypt_salts_each_hash() {
    let first = Bcrypt::hash(b"hunter2", &BcryptConfig { cost: 4 }).unwrap();
    let second = Bcrypt::hash(b"hunter2", &BcryptConfig { cost: 4 }).unwrap();
    assert_ne!(first, second);
    assert!(Bcrypt::verify(b"hunter2", &first).unwrap());
    assert!(Bcrypt::verify(b"hunter2", &second).unwrap());
}

#[test]
fn bcrypt_verify_known_hashes() {
    let from_a_tool = "$2a$04$UuTkLRZZ6QofpDOlMz32MuuxEHA43WOemOYHPz6.SjsVsyO1tDU96";
    assert!(Bcrypt::verify(b"password", from_a_tool).unwrap());
    assert!(!Bcrypt::verify(b"passwore", from_a_tool).unwrap());
    let from_python = "$2b$04$EGdrhbKUv8Oc9vGiXX0HQOxSg445d458Muh7DAHskb6QbtCvdxcie";
    assert!(Bcrypt::verify(b"correctbatteryhorsestapler", from_python).unwrap());
}

#[test]
fn bcrypt_cost_out_of_range() {
    for cost in [0, 3, 32, u32::MAX] {
        let refused = Bcrypt::hash(b"hunter2", &BcryptConfig { cost });
        assert!(matches!(refused, Err(bcrypt::BcryptError::CostNotAllowed(c)) if c == cost));
    }
    assert!(Bcrypt::hash(b"hunter2", &BcryptConfig { cost: 4 }).is_ok());
}

#[test]
fn bcrypt_verify_malformed_hash() {
    let hashed = Bcrypt::hash(b"hunter2", &BcryptConfig { cost: 4 }).unwrap();
    for malformed in ["", "hunter2", &hashed[..59], &hashed[1..], &format!("{hashed}x")] {
        assert!(matches!(
            Bcrypt::verify(b"hunter2", malformed),
            Err(bcrypt::BcryptError::InvalidHash(reason))
                if reason == "the hash format is malformed; expected 60 ASCII bytes"
        ));
    }
    let corrupted = hashed.replace("$2b$", "$9z$");
    assert!(matches!(
        Bcrypt::verify(b"hunter2", &corrupted),
        Err(bcrypt::BcryptError::InvalidHash(_))
    ));
    let bad_cost = hashed.replace("$04$", "$03$");
    assert!(matches!(
        Bcrypt::verify(b"hunter2", &bad_cost),
        Err(bcrypt::BcryptError::CostNotAllowed(3))
    ));
}

#[test]
fn bcrypt_reads_72_bytes_only() {
    let long = vec![b'x'; 72];
    let mut longer = long.clone();
    longer.push(b'y');
    let hashed = Bcrypt::hash(&long, &BcryptConfig { cost: 4 }).unwrap();
    assert!(Bcrypt::verify(&long, &hashed).unwrap());
    assert!(Bcrypt::verify(&longer, &hashed).unwrap());
    assert!(!Bcrypt::verify(&long[..71], &hashed).unwrap());
}

#[test]
fn argon2id_cut_inside_the_digest() {
    let hashed = Argon2id::hash(b"hunter2", &low_cost(b"somesalt")).unwrap();
    let shorter_digest = &hashed[..hashed.len() - 3];
    assert_eq!(Argon2id::verify(b"hunter2", shorter_digest), Ok(false));
}

#[test]
fn bcrypt_verify_corrupted_hash() {
    let hashed = Bcrypt::hash(b"hunter2", &BcryptConfig { cost: 4 }).unwrap();
    let no_dollar = format!("x{}", &hashed[1..]);
    let no_second_dollar = format!("{}x{}", &hashed[..3], &hashed[4..]);
    let no_third_dollar = format!("{}x{}", &hashed[..6], &hashed[7..]);
    let other_version = format!("$3b{}", &hashed[3..]);
    let other_letter = format!("$2c{}", &hashed[3..]);
    let bad_salt = format!("{}!{}", &hashed[..10], &hashed[11..]);
    let bad_digest = format!("{}!", &hashed[..59]);
    let wide = format!("{}\u{e9}", &hashed[..59]);
    for corrupted in [
        no_dollar,
        no_second_dollar,
        no_third_dollar,
        other_version,
        other_letter,
        bad_salt,
        bad_digest,
        wide,
    ] {
        assert_eq!(corrupted.chars().count(), 60);
        assert!(matches!(
            Bcrypt::verify(b"hunter2", &corrupted),
            Err(bcrypt::BcryptError::InvalidHash(_))
        ));
    }
    for version in ["2a", "2x", "2y"] {
        let other = format!("${version}{}", &hashed[3..]);
        assert!(Bcrypt::verify(b"hunter2", &other).unwrap());
    }
}
