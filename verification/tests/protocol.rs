use cardprobe::atr::{classify_atr, felica_atr, u8_array_equals, CardFamily};
use cardprobe::balance::{
    decode_amount, felica_read_command, read_block_result_is_valid, Scheme,
};
use cardprobe::generic::{generic_read_command, parse_generic_response};
use cardprobe::polling::accept_polling_response;

const FELICA_ATR: [u8; 20] = [
    59, 143, 128, 1, 128, 79, 12, 160, 0, 0, 3, 6, 17, 0, 59, 0, 0, 0, 0, 66,
];

fn valid_read_response() -> Vec<u8> {
    let mut r = vec![0u8; 31];
    r[29] = 0x90;
    r[30] = 0x00;
    r
}

#[test]
fn felica_atr_constant() {
    assert_eq!(felica_atr(), FELICA_ATR.to_vec());
}

#[test]
fn classify_exact_signature_is_felica() {
    assert_eq!(classify_atr(&FELICA_ATR), CardFamily::Felica);
}

#[test]
fn classify_one_changed_byte_is_generic() {
    let mut atr = FELICA_ATR;
    atr[19] = 104;
    assert_eq!(classify_atr(&atr), CardFamily::Generic);
}

#[test]
fn classify_wrong_length_is_generic() {
    assert_eq!(classify_atr(&FELICA_ATR[..19]), CardFamily::Generic);
    let mut long = FELICA_ATR.to_vec();
    long.push(0);
    assert_eq!(classify_atr(&long), CardFamily::Generic);
    assert_eq!(classify_atr(&[]), CardFamily::Generic);
}

#[test]
fn u8_array_equals_cases() {
    assert!(u8_array_equals(&[1, 2, 3], &[1, 2, 3]));
    assert!(!u8_array_equals(&[1, 2, 3], &[1, 2]));
    assert!(!u8_array_equals(&[1, 2, 3], &[1, 2, 4]));
    assert!(u8_array_equals(&[], &[]));
}

#[test]
fn polling_response_of_22_bytes_yields_identifier() {
    let resp: Vec<u8> = (0u8..22).collect();
    let id = accept_polling_response(&resp).expect("22-byte response accepted");
    assert_eq!(id, vec![2, 3, 4, 5, 6, 7, 8, 9]);
}

#[test]
fn polling_response_of_other_length_is_rejected() {
    let resp21: Vec<u8> = (0u8..21).collect();
    assert!(accept_polling_response(&resp21).is_none());
    let resp23: Vec<u8> = (0u8..23).collect();
    assert!(accept_polling_response(&resp23).is_none());
    assert!(accept_polling_response(&[]).is_none());
}

#[test]
fn scheme_names_are_the_output_strings() {
    assert_eq!(Scheme::Suica.name(), "suica");
    assert_eq!(Scheme::Edy.name(), "edy");
    assert_eq!(Scheme::Nanaco.name(), "nanaco");
    assert_eq!(Scheme::Waon.name(), "waon");
}

#[test]
fn scheme_service_entries() {
    assert_eq!(Scheme::Suica.service_entry(), vec![1, 0x0F, 0x09]);
    assert_eq!(Scheme::Edy.service_entry(), vec![1, 0x0F, 0x17]);
    assert_eq!(Scheme::Nanaco.service_entry(), vec![1, 0x97, 0x55]);
    assert_eq!(Scheme::Waon.service_entry(), vec![1, 0x17, 0x68]);
}

#[test]
fn read_command_layout() {
    let id = vec![1, 2, 3, 4, 5, 6, 7, 8];
    let entry = Scheme::Suica.service_entry();
    let cmd = felica_read_command(&id, &entry);
    assert_eq!(
        cmd,
        vec![
            0xFF, 0xAB, 0x00, 0x00, 15, 0x06, 1, 2, 3, 4, 5, 6, 7, 8, 1, 0x0F, 0x09, 1, 0x80,
            0x00,
        ]
    );
}

#[test]
fn read_block_validation() {
    assert!(read_block_result_is_valid(&valid_read_response()));
    let mut short = valid_read_response();
    short.pop();
    assert!(!read_block_result_is_valid(&short));
    let mut long = valid_read_response();
    long.push(0);
    assert!(!read_block_result_is_valid(&long));
    let mut bad_status = valid_read_response();
    bad_status[29] = 0x63;
    assert!(!read_block_result_is_valid(&bad_status));
    let mut bad_second = valid_read_response();
    bad_second[30] = 0x01;
    assert!(!read_block_result_is_valid(&bad_second));
}

#[test]
fn amount_decoding_suica_edy_offsets() {
    let mut resp = valid_read_response();
    resp[13 + 0x0E] = 0x34;
    resp[13 + 0x0F] = 0x12;
    assert_eq!(decode_amount(&resp, Scheme::Suica), 0x1234);
    assert_eq!(decode_amount(&resp, Scheme::Edy), 0x1234);
}

#[test]
fn amount_decoding_nanaco_waon_offsets() {
    let mut resp = valid_read_response();
    resp[13] = 0x78;
    resp[13 + 1] = 0x56;
    assert_eq!(decode_amount(&resp, Scheme::Nanaco), 0x5678);
    assert_eq!(decode_amount(&resp, Scheme::Waon), 0x5678);
}

#[test]
fn amount_decoding_extremes() {
    let mut resp = valid_read_response();
    resp[13 + 0x0E] = 0xFF;
    resp[13 + 0x0F] = 0xFF;
    assert_eq!(decode_amount(&resp, Scheme::Suica), 0xFFFF);
    assert_eq!(decode_amount(&resp, Scheme::Nanaco), 0);
}

#[test]
fn generic_command_bytes() {
    assert_eq!(generic_read_command(), vec![0xFF, 0xCA, 0x00, 0x00, 0x00]);
}

#[test]
fn generic_response_with_good_status_yields_identifier() {
    let id = parse_generic_response(&[0x01, 0x02, 0x03, 0x04, 0x90, 0x00])
        .expect("good status accepted");
    assert_eq!(id, vec![0x01, 0x02, 0x03, 0x04]);
}

#[test]
fn generic_response_with_bad_status_is_rejected() {
    assert!(parse_generic_response(&[0x01, 0x02, 0x63, 0x00]).is_none());
    assert!(parse_generic_response(&[0x01, 0x02, 0x90, 0x01]).is_none());
    assert!(parse_generic_response(&[0x90]).is_none());
    assert!(parse_generic_response(&[]).is_none());
}

#[test]
fn generic_response_of_only_the_status_word_yields_empty_identifier() {
    let id = parse_generic_response(&[0x90, 0x00]).expect("bare status word accepted");
    assert_eq!(id, Vec::<u8>::new());
}
