use flash_loan::token::PSP22MintableContract;

#[test]
fn token_keeps_its_description() {
    let token = PSP22MintableContract::new(
        Some(String::from("Stable")),
        Some(String::from("STB")),
        6,
    );
    assert_eq!(token.token_name(), &Some(String::from("Stable")));
    assert_eq!(token.token_symbol(), &Some(String::from("STB")));
    assert_eq!(token.token_decimals(), 6);
}

#[test]
fn token_without_name_or_symbol() {
    let token = PSP22MintableContract::new(None, None, 0);
    assert_eq!(token.token_name(), &None);
    assert_eq!(token.token_symbol(), &None);
    assert_eq!(token.token_decimals(), 0);
}
