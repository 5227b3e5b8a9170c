use garage_rfid::key_mapper::KeyMapper;

#[test]
fn key_mapper_maps_every_keypad_code() {
    let mapper = KeyMapper::new();
    let table = [
        ("11100001", "1"),
        ("11010010", "2"),
        ("11000011", "3"),
        ("10110100", "4"),
        ("10100101", "5"),
        ("10010110", "6"),
        ("10000111", "7"),
        ("01111000", "8"),
        ("01101001", "9"),
        ("11110000", "0"),
        ("01011010", "*"),
        ("01001011", "#"),
    ];
    for (code, key) in table.iter() {
        assert_eq!(mapper.key(code), Some(*key));
    }
}

#[test]
fn key_mapper_rejects_other_codes() {
    let mapper = KeyMapper::new();
    assert_eq!(mapper.key(""), None);
    assert_eq!(mapper.key("1110000"), None);
    assert_eq!(mapper.key("111000011"), None);
    assert_eq!(mapper.key("00000000"), None);
    assert_eq!(mapper.key("101100101100"), None);
    assert_eq!(mapper.key("1"), None);
}

#[test]
fn key_mapper_codes_are_distinct_keys() {
    let mapper = KeyMapper::new();
    let codes = [
        "11100001", "11010010", "11000011", "10110100", "10100101", "10010110", "10000111",
        "01111000", "01101001", "11110000", "01011010", "01001011",
    ];
    let keys: Vec<&str> = codes.iter().map(|c| mapper.key(c).unwrap()).collect();
    for i in 0..keys.len() {
        for j in 0..keys.len() {
            if i != j {
                assert_ne!(keys[i], keys[j]);
            }
        }
    }
}
