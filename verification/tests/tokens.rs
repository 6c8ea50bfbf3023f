use commitaura::error::CommitauraError;
use commitaura::tokens::{
    can_tokenize, estimate_tokens, find_run, may_count_as, CharKind, TokenBudget, Tokenizer,
    MAX_TOKENS, RUN_LIMIT,
};

#[test]
fn estimate_counts_tokens() {
    assert_eq!(estimate_tokens("").unwrap(), 0);
    assert_eq!(estimate_tokens("hello world").unwrap(), 2);
    assert_eq!(estimate_tokens("<|endoftext|>").unwrap(), 1);
}

#[test]
fn estimate_is_the_same_on_every_call() {
    let tokenizer = Tokenizer::p50k_base().unwrap();
    let text = "fn main() {\n    println!(\"hi\");\n}\n";
    let first = tokenizer.estimate(text).unwrap();
    assert_eq!(tokenizer.estimate(text).unwrap(), first);
    assert_eq!(estimate_tokens(text).unwrap(), first);
    assert!(first > 2);
}

#[test]
fn estimate_does_not_shrink_when_text_is_added() {
    let tokenizer = Tokenizer::p50k_base().unwrap();
    let mut text = String::new();
    let mut last = 0;
    for line in ["diff --git a/src/lib.rs b/src/lib.rs\n", "+pub fn add(a: u32, b: u32) -> u32 {\n", "+    a + b\n", "+}\n"] {
        text.push_str(line);
        let n = tokenizer.estimate(&text).unwrap();
        assert!(n >= last);
        last = n;
    }
}

#[test]
fn run_bound_is_what_the_matcher_takes() {
    assert_eq!(RUN_LIMIT, 999_000);
}

#[test]
fn estimate_refuses_a_run_of_whitespace_at_the_bound() {
    let tokenizer = Tokenizer::p50k_base().unwrap();
    for c in [" ", "\u{0B}", "\n"] {
        let long = c.repeat(RUN_LIMIT);
        assert!(matches!(tokenizer.estimate(&long), Err(CommitauraError::TokenizationFailed(_))));
        assert!(matches!(tokenizer.fit(&long, 10), Err(CommitauraError::TokenizationFailed(_))));
    }
    let mut inside = String::from("fn main() {");
    inside.push_str(&" \t".repeat(RUN_LIMIT / 2));
    inside.push('}');
    assert!(matches!(tokenizer.estimate(&inside), Err(CommitauraError::TokenizationFailed(_))));
}

#[test]
fn estimate_takes_a_run_of_whitespace_below_the_bound() {
    // Vertical tabs never merge into longer tokens, so the run costs one token
    // for each and time in proportion to its length.
    let tokenizer = Tokenizer::p50k_base().unwrap();
    let run = "\u{0B}".repeat(RUN_LIMIT - 1);
    assert_eq!(tokenizer.estimate(&run).unwrap(), RUN_LIMIT - 1);
    let mut text = String::from("x");
    text.push_str(&run);
    text.push('y');
    assert_eq!(tokenizer.estimate(&text).unwrap(), RUN_LIMIT + 1);
}

#[test]
fn estimate_takes_ten_thousand_spaces() {
    let tokenizer = Tokenizer::p50k_base().unwrap();
    let mut diff = String::from("+");
    diff.push_str(&" ".repeat(10_000));
    diff.push_str("let x = 1;\n");
    let whole = tokenizer.estimate(&diff).unwrap();
    assert!(whole > 5);
    let fitted = tokenizer.fit(&diff, whole).unwrap();
    assert_eq!(fitted.text, diff);
    assert!(!fitted.truncated);
}

#[test]
fn fit_cuts_a_long_run_of_whitespace() {
    let tokenizer = Tokenizer::p50k_base().unwrap();
    let run = "\u{0B}".repeat(RUN_LIMIT - 1);
    let fitted = tokenizer.fit(&run, 7).unwrap();
    assert_eq!(fitted.text, "\u{0B}".repeat(7));
    assert!(fitted.truncated);
}

#[test]
fn fit_leaves_short_text_alone() {
    let tokenizer = Tokenizer::p50k_base().unwrap();
    let fitted = tokenizer.fit("hello world", 2).unwrap();
    assert_eq!(fitted.text, "hello world");
    assert!(!fitted.truncated);
    let fitted = tokenizer.fit("", 0).unwrap();
    assert_eq!(fitted.text, "");
    assert!(!fitted.truncated);
}

#[test]
fn fit_drops_tokens_from_the_end() {
    let tokenizer = Tokenizer::p50k_base().unwrap();
    let fitted = tokenizer.fit("hello world", 1).unwrap();
    assert_eq!(fitted.text, "hello");
    assert!(fitted.truncated);
    let fitted = tokenizer.fit("hello world", 0).unwrap();
    assert_eq!(fitted.text, "");
    assert!(fitted.truncated);
}

#[test]
fn fit_stays_within_budget_and_is_idempotent() {
    let tokenizer = Tokenizer::p50k_base().unwrap();
    let mut diff = String::new();
    for i in 0..200 {
        diff.push_str(&format!("+    let value_{} = compute(input_{}, \"caf\u{e9} \u{1F600}\");\n", i, i));
    }
    let whole = tokenizer.estimate(&diff).unwrap();
    for budget in [0, 1, 2, 3, 7, 50, 333, whole - 1, whole, whole + 1] {
        let once = tokenizer.fit(&diff, budget).unwrap();
        assert!(tokenizer.estimate(&once.text).unwrap() <= budget);
        assert!(diff.starts_with(&once.text));
        assert_eq!(once.truncated, whole > budget);
        let twice = tokenizer.fit(&once.text, budget).unwrap();
        assert_eq!(twice.text, once.text);
        assert!(!twice.truncated);
    }
}

#[test]
fn fit_never_ends_inside_a_character() {
    let tokenizer = Tokenizer::p50k_base().unwrap();
    let text = "\u{1F600}\u{1F600}\u{1F600}";
    let whole = tokenizer.estimate(text).unwrap();
    assert!(whole > 3);
    for budget in 0..=whole {
        let fitted = tokenizer.fit(text, budget).unwrap();
        assert!(text.starts_with(&fitted.text));
        assert!(tokenizer.estimate(&fitted.text).unwrap() <= budget);
    }
}

#[test]
fn budget_fails_when_fixed_cost_exceeds_max() {
    assert!(matches!(TokenBudget::new(10, 6, 5), Err(CommitauraError::TokenizationFailed(_))));
    assert!(matches!(TokenBudget::new(10, 11, 0), Err(CommitauraError::TokenizationFailed(_))));
    assert!(matches!(
        TokenBudget::new(10, usize::MAX, usize::MAX),
        Err(CommitauraError::TokenizationFailed(_))
    ));
}

#[test]
fn budget_leaves_what_the_fixed_parts_do_not_use() {
    let budget = TokenBudget::new(10, 6, 4).unwrap();
    assert_eq!(budget.available(), 0);
    let budget = TokenBudget::new(MAX_TOKENS, 17, 100).unwrap();
    assert_eq!(budget.max_tokens(), 128000);
    assert_eq!(budget.fixed_cost(), 117);
    assert_eq!(budget.available(), 127883);
}

#[test]
fn tokenization_failures_say_why() {
    assert_eq!(
        TokenBudget::new(10, 6, 5).err(),
        Some(CommitauraError::TokenizationFailed(
            "the fixed parts of the prompt alone exceed the token budget".to_string()
        ))
    );
    let tokenizer = Tokenizer::p50k_base().unwrap();
    let long = " ".repeat(RUN_LIMIT);
    assert_eq!(
        tokenizer.estimate(&long).err(),
        Some(CommitauraError::TokenizationFailed(
            "the text holds more characters of one kind in a row than the tokenizer's pattern matcher can take"
                .to_string()
        ))
    );
}

#[test]
fn estimate_is_zero_for_the_empty_text_alone() {
    let tokenizer = Tokenizer::p50k_base().unwrap();
    assert_eq!(tokenizer.estimate("").unwrap(), 0);
    for text in [" ", "\n", "a", "\u{0B}", "\u{1F600}", "<|endoftext|>", "\u{3000}"] {
        assert!(tokenizer.estimate(text).unwrap() > 0, "{:?}", text);
    }
}

#[test]
fn estimate_is_never_above_the_number_of_bytes() {
    let tokenizer = Tokenizer::p50k_base().unwrap();
    for text in [
        "a",
        "hello world",
        "\u{1F600}\u{1F600}",
        "caf\u{e9} \u{4e2d}\u{6587}",
        "x\u{0B}\u{0B}\u{0B}y",
        "fn main() {\n\tprintln!(\"{}\", 1 + 2);\n}\n",
        "<|endoftext|><|endoftext|>",
    ] {
        assert!(tokenizer.estimate(text).unwrap() <= text.len(), "{:?}", text);
    }
}

#[test]
fn tokens_stand_for_the_text() {
    let bpe = tiktoken_rs::p50k_base().unwrap();
    let mut texts: Vec<String> = vec![
        String::new(),
        "hello world".to_string(),
        "it's what they'd've done, isn't it?".to_string(),
        "  leading and trailing  ".to_string(),
        "a \n b\r\n\tc \u{0B}\u{0C} d\u{85}\u{A0}\u{1680}\u{2000}\u{2028}\u{2029}\u{202F}\u{205F}\u{3000}e".to_string(),
        "x<|endoftext|>y<|endoftext|>".to_string(),
        "<|endofprompt|> <|fim_prefix|>".to_string(),
        "caf\u{e9} \u{4e2d}\u{6587} \u{1F600}\u{1F468}\u{200D}\u{1F469} 12345 3.14 0x1f".to_string(),
        "diff --git a/src/lib.rs b/src/lib.rs\n@@ -1,3 +1,4 @@\n-old\n+new\n".to_string(),
    ];
    let mut u = 0u32;
    while u <= 0x10FFFF {
        if let Some(c) = char::from_u32(u) {
            texts.push(format!("{}a {}", c, c));
        }
        u += if u < 0x3100 { 1 } else { 97 };
    }
    for text in texts {
        let tokens = bpe.encode_with_special_tokens(&text);
        assert!(tokens.len() <= text.len());
        assert_eq!(tokens.is_empty(), text.is_empty());
        for token in &tokens {
            assert!(!bpe._decode_native(&[*token]).is_empty());
        }
        assert_eq!(bpe._decode_native(&tokens), text.as_bytes(), "{:?}", text);
        assert_eq!(bpe.decode(tokens).unwrap(), text);
    }
}

#[test]
fn fit_succeeds_on_every_budget() {
    let tokenizer = Tokenizer::p50k_base().unwrap();
    for text in ["", "a", "\u{1F600}", "hello world", "\u{4e2d}\u{6587}\u{4e2d}\u{6587}"] {
        let whole = tokenizer.estimate(text).unwrap();
        for budget in 0..=whole + 1 {
            let fitted = tokenizer.fit(text, budget).unwrap();
            assert!(text.starts_with(&fitted.text));
            assert_eq!(fitted.truncated, whole > budget);
        }
        assert_eq!(tokenizer.fit(text, 0).unwrap().text, "");
    }
}

#[test]
fn characters_count_as_their_kind() {
    let (ws, letter, number, other) =
        (CharKind::Whitespace, CharKind::Letter, CharKind::Number, CharKind::Other);
    let kinds = [ws, letter, number, other];
    let only = |c: char, kind: CharKind| kinds.iter().all(|k| may_count_as(*k, c) == (*k == kind));
    for c in [' ', '\n', '\t', '\u{0B}', '\u{A0}', '\u{2003}', '\u{3000}'] {
        assert!(only(c, ws), "{:?}", c);
    }
    for c in ['a', 'z', 'A', 'Z', 'm'] {
        assert!(only(c, letter), "{:?}", c);
    }
    for c in ['0', '5', '9'] {
        assert!(only(c, number), "{:?}", c);
    }
    for c in ['=', '_', '\'', '\u{1}', '\u{7F}', '@', '[', '`', '{', '/', ':'] {
        assert!(only(c, other), "{:?}", c);
    }
    for c in ['\u{E9}', '\u{AA}', '\u{B3}', '\u{4E2D}', '\u{3001}', '\u{1F600}', '\u{80}'] {
        assert!(!may_count_as(ws, c), "{:?}", c);
        assert!(may_count_as(letter, c) && may_count_as(number, c) && may_count_as(other, c));
    }
}

#[test]
fn characters_count_as_the_kind_that_std_gives_them() {
    for u in 0u32..=0x10FFFF {
        if let Some(c) = char::from_u32(u) {
            assert_eq!(may_count_as(CharKind::Whitespace, c), c.is_whitespace());
            if c.is_alphabetic() {
                assert!(may_count_as(CharKind::Letter, c), "U+{:04X}", u);
            }
            if c.is_numeric() {
                assert!(may_count_as(CharKind::Number, c), "U+{:04X}", u);
            }
            if !c.is_whitespace() && !c.is_alphabetic() && !c.is_numeric() && !c.is_ascii() {
                assert!(may_count_as(CharKind::Other, c), "U+{:04X}", u);
            }
        }
    }
}

#[test]
fn find_run_finds_runs() {
    let text: Vec<char> = "a  b   c".chars().collect();
    assert!(find_run(&text, CharKind::Whitespace, 0));
    assert!(find_run(&text, CharKind::Whitespace, 1));
    assert!(find_run(&text, CharKind::Whitespace, 3));
    assert!(!find_run(&text, CharKind::Whitespace, 4));
    assert!(find_run(&text, CharKind::Letter, 1));
    assert!(!find_run(&text, CharKind::Letter, 2));
    assert!(!find_run(&text, CharKind::Number, 1));
    let empty: Vec<char> = Vec::new();
    assert!(find_run(&empty, CharKind::Other, 0));
    assert!(!find_run(&empty, CharKind::Other, 1));
    let mixed: Vec<char> = "ab12\u{E9}\u{E9}cd==".chars().collect();
    assert!(find_run(&mixed, CharKind::Letter, 4));
    assert!(!find_run(&mixed, CharKind::Letter, 5));
    assert!(find_run(&mixed, CharKind::Number, 4));
    assert!(!find_run(&mixed, CharKind::Number, 5));
    assert!(find_run(&mixed, CharKind::Other, 2));
    assert!(!find_run(&mixed, CharKind::Other, 3));
}

#[test]
fn estimate_refuses_a_run_of_letters_at_the_bound() {
    let tokenizer = Tokenizer::p50k_base().unwrap();
    for c in ["a", "\u{AA}", "7", "\u{B3}", "=", "\u{1}", "\u{4E2D}"] {
        let long = c.repeat(RUN_LIMIT);
        assert!(!can_tokenize(&long));
        assert!(matches!(tokenizer.estimate(&long), Err(CommitauraError::TokenizationFailed(_))));
        assert!(matches!(tokenizer.fit(&long, 10), Err(CommitauraError::TokenizationFailed(_))));
    }
    let mut inside = String::from("let blob = \"");
    inside.push_str(&"Qq".repeat(RUN_LIMIT / 2));
    inside.push_str("\";\n");
    assert!(matches!(tokenizer.estimate(&inside), Err(CommitauraError::TokenizationFailed(_))));
}

#[test]
fn estimate_takes_runs_of_every_kind_below_the_bound() {
    // None of these characters merges with itself into a longer token, so
    // each run costs one token for each of its bytes and time in proportion
    // to its length.
    let tokenizer = Tokenizer::p50k_base().unwrap();
    for (c, bytes) in [("\u{AA}", 2), ("\u{B3}", 2), ("\u{1}", 1)] {
        let run = c.repeat(RUN_LIMIT - 1);
        assert!(can_tokenize(&run));
        assert_eq!(tokenizer.estimate(&run).unwrap(), bytes * (RUN_LIMIT - 1));
    }
}

#[test]
fn estimate_takes_a_long_text_without_whitespace() {
    let tokenizer = Tokenizer::p50k_base().unwrap();
    let text = "a1=".repeat(400_000);
    assert!(can_tokenize(&text));
    assert_eq!(tokenizer.estimate(&text).unwrap(), 1_200_000);
    let fitted = tokenizer.fit(&text, 5).unwrap();
    assert_eq!(fitted.text, "a1=a1");
    assert!(fitted.truncated);
}
