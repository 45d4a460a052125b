use signal_interner::interner::{intern, leak, HashSetInterner, Interner, Leaked};

#[test]
fn test_intern_string() {
    let mut interner = HashSetInterner::new();
    let interned = intern(&mut interner, "hello world".to_string());
    let first = interned;
    println!("cool {:p} {}", first, interned);

    for i in 1..200_000 {
        intern(&mut interner, format!("intern{}", i));
    }
    println!("cool {:p} {}", first, interned);

    let interned = intern(&mut interner, "hello world".to_string());
    println!("cool {:p} {}", interned, interned);
    assert!(std::ptr::eq(first, interned));
    assert_eq!(interned, "hello world");
}

#[test]
fn intern_gives_equal_content() {
    let mut interner = HashSetInterner::new();
    let a = intern(&mut interner, "abc".to_string());
    assert_eq!(a.as_str(), "abc");
    let empty = intern(&mut interner, String::new());
    assert_eq!(empty.as_str(), "");
}

#[test]
fn reintern_gives_same_reference() {
    let mut interner = HashSetInterner::new();
    let a = intern(&mut interner, "same".to_string());
    let b = intern(&mut interner, "same".to_string());
    assert!(std::ptr::eq(a, b));
}

#[test]
fn distinct_values_get_distinct_references() {
    let mut interner = HashSetInterner::new();
    let a = intern(&mut interner, "one".to_string());
    let b = intern(&mut interner, "two".to_string());
    assert!(!std::ptr::eq(a, b));
    assert_eq!(a, "one");
    assert_eq!(b, "two");
}

#[test]
fn interner_method_and_default() {
    let mut interner: HashSetInterner<String> = Default::default();
    let a = interner.intern("x".to_string());
    let b = Interner::intern(&mut interner, "x".to_string());
    assert!(std::ptr::eq(a, b));
}

#[test]
fn leak_keeps_value() {
    let v: &'static Vec<u32> = leak(vec![1, 2, 3]);
    assert_eq!(v, &vec![1, 2, 3]);
}

#[test]
fn leaked_new_keeps_value() {
    let kept = Leaked::new(42u64);
    assert_eq!(*kept.get(), 42);
    let text = Leaked::new("kept".to_string());
    assert_eq!(text.get().as_str(), "kept");
}
