use shrink::classify::Classify;
use shrink::digest::Digest;

// A declared type classifies itself by hand here: a struct folds the classes
// of its fields in order, an enum the position of its variant and then the
// classes of what it carries. `spec_classify` is the model that the contract
// of `classify` speaks of; compiled code has no use for it.

struct Test {
    first: u8,
    second: u8,
}

impl Classify for Test {
    type Output = u64;

    fn spec_classify(&self) -> u64 {
        self.classify()
    }

    fn classify(&self) -> u64 {
        let mut state = Digest::new();
        state.fold(&self.first.classify());
        state.fold(&self.second.classify());
        state.finish()
    }
}

#[test]
fn classify_test() {
    let mut t = Test {
        first: 1,
        second: 2,
    };
    let a = t.classify();
    t.first = 2;
    let b = t.classify();
    assert_eq!(a, b);

    t.first = 0;
    let c = t.classify();
    assert_ne!(a, c);
    assert_ne!(b, c);
}

#[derive(Debug)]
enum MyEnum {
    First,
    Second,
    Third,
}

impl Classify for MyEnum {
    type Output = u64;

    fn spec_classify(&self) -> u64 {
        self.classify()
    }

    fn classify(&self) -> u64 {
        match self {
            MyEnum::First => Digest::variant(0).finish(),
            MyEnum::Second => Digest::variant(1).finish(),
            MyEnum::Third => Digest::variant(2).finish(),
        }
    }
}

#[derive(Debug)]
enum MyEnum2 {
    First(u64),
    Second(u64),
    Third(i64),
}

impl Classify for MyEnum2 {
    type Output = u64;

    fn spec_classify(&self) -> u64 {
        self.classify()
    }

    fn classify(&self) -> u64 {
        match self {
            MyEnum2::First(f0) => {
                let mut state = Digest::variant(0);
                state.fold(&f0.classify());
                state.finish()
            }
            MyEnum2::Second(f0) => {
                let mut state = Digest::variant(1);
                state.fold(&f0.classify());
                state.finish()
            }
            MyEnum2::Third(f0) => {
                let mut state = Digest::variant(2);
                state.fold(&f0.classify());
                state.finish()
            }
        }
    }
}

#[test]
fn enum_works() {
    assert_ne!(MyEnum::First.classify(), MyEnum::Second.classify());
    assert_ne!(MyEnum::First.classify(), MyEnum::Third.classify());
    assert_ne!(MyEnum::Second.classify(), MyEnum::Third.classify());

    assert_ne!(MyEnum2::First(1).classify(), MyEnum2::Second(1).classify());
    assert_ne!(MyEnum2::First(1).classify(), MyEnum2::Third(1).classify());
    assert_ne!(MyEnum2::Second(1).classify(), MyEnum2::Third(1).classify());

    assert_eq!(MyEnum2::First(1).classify(), MyEnum2::First(3).classify());
}

struct Lists {
    a: Vec<u8>,
    b: Vec<u8>,
}

impl Classify for Lists {
    type Output = u64;

    fn spec_classify(&self) -> u64 {
        self.classify()
    }

    fn classify(&self) -> u64 {
        let mut state = Digest::new();
        state.fold(&self.a.classify());
        state.fold(&self.b.classify());
        state.finish()
    }
}

#[test]
fn can_classify_macro_vec() {
    let a = Lists {
        a: vec![1, 2, 3],
        b: vec![1, 2, 3],
    };

    let b = Lists {
        a: vec![3, 4, 5, 6],
        b: vec![4, 5, 6, 7],
    };

    assert_eq!(a.classify(), b.classify());
}
