use token_custody::{
    get_metadata, set_metadata, CustomMetadata, GetMetadata, PrincipalId, SetMetadata,
    METADATA_URI,
};

#[test]
fn the_descriptor_is_the_fixed_text() {
    assert_eq!(
        METADATA_URI,
        "https://aquamarine-additional-carp-588.mypinata.cloud/ipfs/bafkreiaax3gsuvfttrixq3iw7ki37ljqssnfk655dts5rnkpdrowug4ygy"
    );
}

#[test]
fn set_writes_the_descriptor_into_an_empty_record() {
    let payer = PrincipalId::new([9u8; 32]);
    let mut ctx = SetMetadata { metadata: CustomMetadata { uri: String::new() }, payer };
    set_metadata(&mut ctx);
    assert_eq!(ctx.metadata.uri, METADATA_URI);
    assert_eq!(ctx.payer, payer);
}

#[test]
fn set_overwrites_what_the_record_held() {
    let payer = PrincipalId::new([0u8; 32]);
    let mut ctx = SetMetadata {
        metadata: CustomMetadata { uri: String::from("https://example.org/other") },
        payer,
    };
    set_metadata(&mut ctx);
    assert_eq!(ctx.metadata.uri, METADATA_URI);
    set_metadata(&mut ctx);
    assert_eq!(ctx.metadata.uri, METADATA_URI);
}

#[test]
fn get_returns_what_the_record_holds() {
    let ctx = GetMetadata { metadata: CustomMetadata { uri: String::from("abc") } };
    assert_eq!(get_metadata(&ctx), "abc");
    let empty = GetMetadata { metadata: CustomMetadata { uri: String::new() } };
    assert_eq!(get_metadata(&empty), "");
    assert_eq!(ctx.metadata.uri, "abc");
}

#[test]
fn get_after_set_returns_the_descriptor_for_any_payer() {
    let payers: [[u8; 32]; 3] = [[0u8; 32], [1u8; 32], [255u8; 32]];
    for bytes in payers {
        let mut ctx = SetMetadata {
            metadata: CustomMetadata { uri: String::from("before") },
            payer: PrincipalId::new(bytes),
        };
        set_metadata(&mut ctx);
        let read = GetMetadata { metadata: ctx.metadata };
        assert_eq!(get_metadata(&read), METADATA_URI);
    }
}
