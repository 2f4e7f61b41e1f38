use gemini::auth::error::{JwtError, NetConnError};
use gemini::auth::hyper_fetcher::{
    check_status, impersonated_expires_in, provider_token_request, FetchAccount, FetchAction,
    FetchEvent, FetchFlow, FetchState, HttpMethod, HttpRequest, ImpersonationTokenResponse,
    StsTokenResponse, SubjectFileError, TokenResponse,
};
use gemini::auth::user_account::{
    CredentialSource, ImpersonatedAccount, SourceCredentials, UserAccount,
    WorkloadIdentityAccount,
};

/// A throwaway 2048-bit RSA key (PKCS#1 DER), made for these tests only.
const TEST_KEY_DER: [u8; 1190] = [
    0x30, 0x82, 0x04, 0xa2, 0x02, 0x01, 0x00, 0x02, 0x82, 0x01, 0x01, 0x00, 0xa6, 0xa9, 0x20, 0xbe,
    0x43, 0x6d, 0xa1, 0x94, 0xfe, 0xf0, 0xfc, 0xcd, 0x22, 0xb6, 0x8a, 0x8f, 0xc4, 0x7a, 0x66, 0x8f,
    0x1e, 0xd8, 0x14, 0x17, 0x96, 0x8b, 0x61, 0xb2, 0xa4, 0x57, 0xf5, 0x94, 0x0d, 0x5c, 0xf0, 0x6d,
    0x6d, 0x75, 0x64, 0x94, 0x02, 0xa1, 0x8f, 0x48, 0xee, 0x88, 0x9d, 0xaa, 0x5f, 0x61, 0xf5, 0x97,
    0xa4, 0x2f, 0x7a, 0x48, 0xd1, 0x68, 0x68, 0x9a, 0xf0, 0x85, 0x35, 0xee, 0x32, 0x99, 0x1c, 0x00,
    0xba, 0x27, 0xd7, 0x9c, 0xa0, 0x6b, 0x7f, 0xdc, 0x8f, 0x68, 0xe4, 0x85, 0x13, 0x07, 0x09, 0xf6,
    0xbd, 0x78, 0x5a, 0xf8, 0xf9, 0x1e, 0x3c, 0x5b, 0xc5, 0x89, 0xbc, 0x61, 0x72, 0x5d, 0x5e, 0x34,
    0xa5, 0x8d, 0x0e, 0x78, 0x00, 0x23, 0xb4, 0x5e, 0xdc, 0xc1, 0x07, 0x21, 0x7c, 0xf9, 0xcb, 0x7a,
    0x02, 0x5b, 0x38, 0xec, 0x80, 0x94, 0x4d, 0x60, 0x92, 0x68, 0x80, 0x88, 0x02, 0x34, 0xdc, 0xa8,
    0x87, 0xe4, 0x80, 0x62, 0x24, 0xa2, 0x35, 0x16, 0x8b, 0xdf, 0x87, 0x39, 0x3f, 0x49, 0x72, 0xeb,
    0xa3, 0xd7, 0x2d, 0xc4, 0x7a, 0xc7, 0x9d, 0x0b, 0x3b, 0x29, 0x80, 0x08, 0x25, 0xb1, 0x7f, 0x79,
    0x89, 0xc0, 0x68, 0xef, 0x50, 0x2e, 0xf0, 0x67, 0x66, 0x3f, 0xfb, 0xf1, 0x56, 0x69, 0xb3, 0xdd,
    0xe2, 0x2f, 0xc4, 0x1f, 0xf0, 0x2a, 0xde, 0xef, 0x13, 0x2b, 0xf6, 0x3e, 0x53, 0x60, 0x04, 0x55,
    0xaa, 0x96, 0x81, 0xe3, 0x96, 0x1d, 0x65, 0x78, 0x9d, 0x2f, 0x55, 0x49, 0x57, 0x4f, 0xc6, 0xc5,
    0x60, 0xf2, 0xa4, 0x4b, 0xae, 0x2c, 0x62, 0x66, 0x05, 0xd6, 0xc9, 0xe9, 0x04, 0xaf, 0xfb, 0xbb,
    0x85, 0xb9, 0x94, 0xec, 0x4b, 0x74, 0xaf, 0x15, 0x12, 0x48, 0x9b, 0x69, 0xf7, 0x33, 0x86, 0x0c,
    0xac, 0xc7, 0xe3, 0xc0, 0xa8, 0x71, 0x36, 0x70, 0x0b, 0x0a, 0xb0, 0xa9, 0x02, 0x03, 0x01, 0x00,
    0x01, 0x02, 0x82, 0x01, 0x00, 0x05, 0xeb, 0x77, 0x41, 0x26, 0xdc, 0x3d, 0xab, 0x71, 0x10, 0x4e,
    0x8c, 0x7b, 0x4d, 0x8c, 0x57, 0xad, 0xb9, 0x12, 0xcc, 0x45, 0xe2, 0x53, 0x39, 0x60, 0xc4, 0xaf,
    0xea, 0x54, 0x65, 0xd6, 0xf0, 0x64, 0xb6, 0x9e, 0xc8, 0x26, 0x45, 0x8f, 0x96, 0x65, 0xcf, 0x07,
    0x0b, 0xc6, 0x44, 0x46, 0x44, 0x6b, 0x59, 0xab, 0x8b, 0x70, 0xbe, 0xaa, 0x7b, 0x6c, 0x6b, 0xc6,
    0xde, 0x6d, 0x09, 0x70, 0x48, 0x57, 0x16, 0x02, 0xed, 0x80, 0x2f, 0x42, 0xdc, 0x7a, 0x82, 0xc3,
    0x02, 0x8a, 0xba, 0x05, 0x36, 0xf8, 0x5d, 0x6d, 0x44, 0x4d, 0x47, 0xd9, 0x84, 0x63, 0x35, 0xe8,
    0x9b, 0x32, 0x65, 0xb1, 0x72, 0x2d, 0x29, 0xa5, 0x9b, 0x5d, 0x5f, 0x88, 0xaa, 0x68, 0xc7, 0xdb,
    0xe3, 0xec, 0x37, 0xb3, 0x89, 0x04, 0x1b, 0x4b, 0xd7, 0xd8, 0x3e, 0x55, 0x03, 0xea, 0x8f, 0xc9,
    0xfd, 0x52, 0x8a, 0x01, 0x79, 0xb4, 0x9c, 0x0b, 0x21, 0xaf, 0x79, 0xcf, 0x24, 0x97, 0x86, 0x75,
    0x26, 0x1f, 0xf5, 0xe3, 0xc4, 0xb7, 0xe3, 0x4c, 0x4a, 0xfb, 0x5f, 0xbf, 0xdd, 0xbe, 0x55, 0xc7,
    0xec, 0x7c, 0x4a, 0x81, 0xdb, 0x62, 0x2f, 0xfd, 0x60, 0x5d, 0x6c, 0x5f, 0x71, 0xd6, 0x32, 0x09,
    0xd1, 0x95, 0xa9, 0x73, 0x81, 0x32, 0x9b, 0x94, 0xde, 0x74, 0x13, 0x9b, 0x58, 0x94, 0xe8, 0xb8,
    0x3b, 0x7a, 0xb6, 0xe3, 0x0c, 0x0d, 0xb2, 0x10, 0x75, 0x62, 0xcb, 0xae, 0x41, 0xd7, 0x4d, 0xa0,
    0xb3, 0x07, 0x99, 0xad, 0x58, 0xcc, 0x37, 0x28, 0xdb, 0xae, 0x9d, 0x80, 0x42, 0xb3, 0xff, 0x0e,
    0xdb, 0x47, 0xe3, 0xe4, 0x23, 0x3c, 0x03, 0xf7, 0x18, 0x20, 0xd0, 0x5e, 0x7c, 0x6f, 0x57, 0xe9,
    0x11, 0x8d, 0x3d, 0xdf, 0xda, 0x44, 0xb2, 0xcb, 0xd7, 0xba, 0x65, 0xd8, 0xa3, 0xef, 0x69, 0x6f,
    0x21, 0xba, 0xf8, 0x8d, 0xd1, 0x02, 0x81, 0x81, 0x00, 0xd2, 0xd6, 0x65, 0x5e, 0x5d, 0xd9, 0xcb,
    0x62, 0x1c, 0xdf, 0x32, 0x31, 0xeb, 0xc2, 0xf2, 0x56, 0xe2, 0xda, 0x0f, 0x14, 0xb9, 0xdb, 0xbe,
    0x77, 0xca, 0x89, 0xa0, 0x01, 0x2c, 0x32, 0x33, 0xc4, 0xdd, 0x50, 0x53, 0x5c, 0xeb, 0xb2, 0x83,
    0xf8, 0xac, 0xa3, 0xde, 0x34, 0x88, 0x37, 0x2f, 0x31, 0xf6, 0x55, 0xc4, 0x02, 0xbf, 0xe1, 0x07,
    0x06, 0xeb, 0xf6, 0xd2, 0xc2, 0xc5, 0xa0, 0x1e, 0x61, 0xb4, 0x87, 0x6c, 0x67, 0xdf, 0xd3, 0xb2,
    0x05, 0x3f, 0x5f, 0xa8, 0x78, 0xf2, 0xb6, 0x1e, 0xa5, 0x8c, 0x53, 0x05, 0x67, 0x79, 0xdd, 0x27,
    0x11, 0xa8, 0x71, 0x07, 0x98, 0x44, 0x74, 0xb0, 0xc4, 0xb4, 0xd2, 0x30, 0xa8, 0x3c, 0x7a, 0xde,
    0xc2, 0x45, 0x7c, 0x1f, 0xc2, 0x1f, 0xbb, 0x87, 0xe7, 0xa2, 0xe4, 0xe4, 0x47, 0xd9, 0x26, 0xc2,
    0x6f, 0xf6, 0xd7, 0xa3, 0x36, 0xb9, 0x12, 0x67, 0x19, 0x02, 0x81, 0x81, 0x00, 0xca, 0x5c, 0x39,
    0xed, 0x8a, 0xe9, 0xe1, 0x97, 0x39, 0x02, 0x83, 0xb3, 0xb0, 0x97, 0x8f, 0x40, 0x03, 0x1b, 0xe3,
    0x52, 0x1a, 0xe1, 0x5b, 0xdc, 0xe4, 0xdc, 0x5f, 0xbc, 0xa7, 0xf6, 0xf7, 0x28, 0x27, 0xf7, 0x35,
    0x2c, 0x44, 0xe5, 0x6c, 0xf6, 0x20, 0xe9, 0x29, 0xf7, 0x6e, 0x09, 0xc5, 0x6e, 0x8c, 0x2f, 0xdf,
    0x4d, 0x2a, 0xaf, 0xaf, 0xe4, 0xe7, 0x31, 0x52, 0xee, 0x7d, 0xb3, 0x75, 0x8d, 0xc5, 0x8e, 0x8d,
    0x4b, 0x6b, 0x29, 0x30, 0x8f, 0x00, 0x60, 0x2e, 0x01, 0x2f, 0xb1, 0xec, 0x5e, 0xdc, 0x84, 0xcb,
    0xb8, 0xb6, 0xf0, 0x00, 0xa5, 0xce, 0xb7, 0xa5, 0x45, 0xae, 0x02, 0x60, 0xf0, 0x7f, 0xa0, 0x86,
    0xec, 0x87, 0xff, 0x6e, 0x63, 0x56, 0x55, 0xfd, 0x88, 0x8d, 0x4d, 0x8b, 0x24, 0x76, 0x87, 0x58,
    0x5f, 0xb8, 0xfe, 0x8f, 0x7d, 0x4f, 0x17, 0xf0, 0xfb, 0xea, 0xd3, 0x98, 0x11, 0x02, 0x81, 0x80,
    0x7c, 0x61, 0xbd, 0x45, 0xb1, 0xaa, 0x56, 0x41, 0x18, 0x75, 0x58, 0x40, 0x79, 0x2c, 0xf6, 0x18,
    0xea, 0x15, 0xe8, 0xc5, 0xba, 0x6b, 0xf7, 0xee, 0xe5, 0xce, 0xd1, 0x55, 0x3f, 0xc4, 0x92, 0x23,
    0xf6, 0xc8, 0x77, 0x95, 0x9e, 0xfb, 0x1e, 0xbe, 0x2a, 0xe3, 0x35, 0xa8, 0xda, 0x1f, 0x6c, 0x39,
    0x56, 0x70, 0xfc, 0x84, 0xfe, 0xbb, 0xfb, 0x90, 0x4a, 0xce, 0xbf, 0x41, 0xe6, 0xa2, 0xf2, 0xa9,
    0x83, 0x7e, 0x4d, 0x26, 0xee, 0xb6, 0x0e, 0x14, 0xe8, 0x71, 0x3f, 0x8b, 0xb2, 0xec, 0x5c, 0x22,
    0x20, 0x29, 0xae, 0x4b, 0x80, 0x6a, 0x46, 0xad, 0x35, 0x29, 0x11, 0x68, 0xf4, 0x21, 0xbf, 0x53,
    0x1c, 0xb5, 0xcf, 0xbc, 0xc0, 0x89, 0x60, 0x37, 0x4e, 0x14, 0xcf, 0x0b, 0x8f, 0xfa, 0xeb, 0x4f,
    0x6d, 0x1b, 0x09, 0xcd, 0x95, 0x3f, 0x37, 0x80, 0x24, 0x28, 0xcd, 0x01, 0xf0, 0xa6, 0xf9, 0xa9,
    0x02, 0x81, 0x80, 0x0e, 0x4b, 0x07, 0x58, 0x6c, 0xe8, 0x6a, 0x23, 0xb9, 0x46, 0x21, 0x31, 0x4e,
    0xf6, 0xd5, 0x8a, 0x6a, 0xed, 0xcc, 0x57, 0x9f, 0x48, 0x6d, 0xa9, 0xa3, 0x8c, 0xa1, 0x42, 0x7d,
    0x06, 0xa7, 0x9c, 0x71, 0x7e, 0x37, 0x86, 0x41, 0xf3, 0x86, 0x87, 0xb7, 0xf9, 0x60, 0x1a, 0x76,
    0xee, 0x3f, 0xc0, 0xb8, 0x2c, 0x25, 0x74, 0x98, 0xe0, 0x41, 0xe7, 0x44, 0x21, 0x2a, 0xbf, 0x67,
    0xa7, 0x86, 0x55, 0x16, 0x30, 0x24, 0x70, 0xc0, 0x47, 0xef, 0x83, 0x1a, 0x3e, 0xb0, 0xe1, 0x2a,
    0x92, 0x41, 0xa4, 0xcd, 0xa4, 0x9f, 0x93, 0x13, 0x70, 0xce, 0x4a, 0xe7, 0xd7, 0xf6, 0xd7, 0x7e,
    0x1b, 0xf2, 0xe6, 0xe9, 0xcc, 0xd7, 0xda, 0xdb, 0x1c, 0x42, 0x9a, 0xc7, 0x9d, 0x59, 0x44, 0x0c,
    0xde, 0xfe, 0x45, 0xfc, 0x0d, 0x41, 0x43, 0xb9, 0x98, 0x59, 0x60, 0x3b, 0x76, 0xf0, 0x71, 0x8a,
    0xbb, 0x99, 0x51, 0x02, 0x81, 0x80, 0x60, 0x27, 0x9a, 0x55, 0x8b, 0xbb, 0x95, 0x53, 0xdc, 0x28,
    0xf0, 0x9e, 0x6c, 0x96, 0x17, 0x8e, 0x60, 0x12, 0x43, 0x5f, 0x15, 0x29, 0x9b, 0x8f, 0xe4, 0xc0,
    0x15, 0x74, 0x86, 0xcf, 0x09, 0x63, 0x2d, 0x03, 0x9c, 0x95, 0xed, 0xea, 0xca, 0x4b, 0x09, 0x45,
    0x48, 0x69, 0x37, 0x60, 0xa9, 0x9c, 0x30, 0x8e, 0x0d, 0xf2, 0x1d, 0x01, 0x5a, 0x35, 0xc3, 0x97,
    0x76, 0x53, 0xd5, 0x5a, 0x2c, 0xac, 0x37, 0xf7, 0xe1, 0x3a, 0xa2, 0x97, 0xe5, 0x24, 0x4e, 0xb4,
    0xb4, 0x66, 0xa7, 0x0a, 0xee, 0xbf, 0x4f, 0xe2, 0xe8, 0x0b, 0xdd, 0x60, 0x76, 0xa9, 0xe4, 0x14,
    0xd2, 0x9f, 0xf8, 0x70, 0x6a, 0x70, 0x28, 0x60, 0x50, 0x55, 0x1c, 0xca, 0xb1, 0x30, 0xa1, 0xb0,
    0x61, 0x46, 0x8a, 0xec, 0x54, 0x79, 0xec, 0xe6, 0x6e, 0x21, 0xba, 0x79, 0x1c, 0x0e, 0x3b, 0x24,
    0xae, 0x32, 0x27, 0xe7, 0x34, 0x82,
];

/// The test key in PEM form, as the account files carry it.
fn test_key() -> String {
    const ALPHABET: &[u8] = b"ABCDEFGHIJKLMNOPQRSTUVWXYZabcdefghijklmnopqrstuvwxyz0123456789+/";
    let mut b64 = String::new();
    for chunk in TEST_KEY_DER.chunks(3) {
        let n = chunk.iter().fold(0u32, |acc, &b| (acc << 8) | b as u32) << (8 * (3 - chunk.len()));
        for k in 0..4 {
            if k <= chunk.len() {
                b64.push(ALPHABET[((n >> (18 - 6 * k)) & 63) as usize] as char);
            } else {
                b64.push('=');
            }
        }
    }
    let label = "RSA PRIVATE KEY";
    let mut pem = format!("-----BEGIN {label}-----\n");
    for line in b64.as_bytes().chunks(64) {
        pem.push_str(std::str::from_utf8(line).unwrap());
        pem.push('\n');
    }
    pem.push_str(&format!("-----END {label}-----\n"));
    pem
}

fn user(key: &str) -> UserAccount {
    UserAccount {
        client_email: "sa@project.iam.gserviceaccount.com".to_string(),
        private_key: key.to_string(),
        project_id: "project".to_string(),
        auth_uri: "https://accounts.google.com/o/oauth2/auth".to_string(),
        token_uri: "https://oauth2.googleapis.com/token".to_string(),
    }
}

fn creds() -> SourceCredentials {
    SourceCredentials {
        account: String::new(),
        client_id: "id 1".to_string(),
        client_secret: "s&cret".to_string(),
        refresh_token: "1//tok=".to_string(),
        type_: "authorized_user".to_string(),
        universe_domain: "googleapis.com".to_string(),
    }
}

fn workload(file: Option<&str>, url: Option<&str>, imp: Option<&str>) -> WorkloadIdentityAccount {
    WorkloadIdentityAccount {
        project_id: String::new(),
        audience: "//iam.googleapis.com/projects/1/pool".to_string(),
        subject_token_type: "urn:ietf:params:oauth:token-type:jwt".to_string(),
        token_url: "https://sts.googleapis.com/v1/token".to_string(),
        credential_source: CredentialSource {
            file: file.map(|s| s.to_string()),
            url: url.map(|s| s.to_string()),
            headers: Some(vec![("Metadata-Flavor".to_string(), "Google".to_string())]),
        },
        service_account_impersonation_url: imp.map(|s| s.to_string()),
    }
}

fn sent(a: FetchAction) -> HttpRequest {
    match a {
        FetchAction::Send(r) => r,
        _ => panic!("expected a request"),
    }
}

fn finished(a: FetchAction) -> Result<TokenResponse, NetConnError> {
    match a {
        FetchAction::Finish(r) => r,
        _ => panic!("expected the end"),
    }
}

fn token(t: &str) -> TokenResponse {
    TokenResponse { access_token: t.to_string(), expires_in: 3599, token_type: "Bearer".to_string() }
}

fn b64url_decode(s: &str) -> Vec<u8> {
    let mut bits: u32 = 0;
    let mut n = 0;
    let mut out = Vec::new();
    for c in s.bytes() {
        let v = match c {
            b'A'..=b'Z' => c - b'A',
            b'a'..=b'z' => c - b'a' + 26,
            b'0'..=b'9' => c - b'0' + 52,
            b'-' => 62,
            b'_' => 63,
            _ => panic!("not base64url"),
        } as u32;
        bits = (bits << 6) | v;
        n += 6;
        if n >= 8 {
            n -= 8;
            out.push((bits >> n) as u8);
            bits &= (1 << n) - 1;
        }
    }
    out
}

#[test]
fn user_account_signs_an_hour_long_assertion() {
    let jwt = user(&test_key()).create_jwt(1_700_000_000).unwrap();
    let parts: Vec<&str> = jwt.split('.').collect();
    assert_eq!(parts.len(), 3);
    let claims = String::from_utf8(b64url_decode(parts[1])).unwrap();
    assert_eq!(
        claims,
        "{\"iss\":\"sa@project.iam.gserviceaccount.com\",\"scope\":\"https://www.googleapis.com/auth/cloud-platform\",\"aud\":\"https://oauth2.googleapis.com/token\",\"iat\":1700000000,\"exp\":1700003600}"
    );
    let header = String::from_utf8(b64url_decode(parts[0])).unwrap();
    assert!(header.contains("RS256"));
    assert_eq!(user(&test_key()).create_jwt_hyper(1_700_000_000).unwrap(), jwt);
    assert_eq!(
        WorkloadIdentityAccount::create_jwt("sa@project.iam.gserviceaccount.com", &test_key(), 1_700_000_000).unwrap(),
        jwt
    );
}

#[test]
fn bad_key_is_a_jwt_error() {
    assert!(matches!(user("not a key").create_jwt(5), Err(JwtError::Jwt(_))));
    assert!(WorkloadIdentityAccount::create_jwt("a", "nope", 5).is_err());
    assert!(matches!(WorkloadIdentityAccount::create_subject_token(5), Err(JwtError::Jwt(_))));
}

#[test]
fn user_flow_posts_assertion_then_finishes_with_token() {
    let mut flow = FetchFlow::new(FetchAccount::UserAccount(user(&test_key())));
    let req = sent(flow.step(FetchEvent::Begin { now_secs: 1_700_000_000 }));
    assert_eq!(flow.state, FetchState::AwaitingToken);
    assert_eq!(req.method, HttpMethod::Post);
    assert_eq!(req.uri, "https://oauth2.googleapis.com/token");
    assert_eq!(req.headers, vec![("Content-Type".to_string(), "application/x-www-form-urlencoded".to_string())]);
    let jwt = user(&test_key()).create_jwt(1_700_000_000).unwrap();
    assert_eq!(
        String::from_utf8(req.body).unwrap(),
        format!("grant_type=urn:ietf:params:oauth:grant-type:jwt-bearer&assertion={jwt}")
    );
    let t = finished(flow.step(FetchEvent::Token(token("ya29"))));
    assert_eq!(t.unwrap().access_token, "ya29");
    assert_eq!(flow.state, FetchState::Finished);
}

#[test]
fn user_flow_with_bad_key_fails() {
    let mut flow = FetchFlow::new(FetchAccount::UserAccount(user("garbage")));
    let r = finished(flow.step(FetchEvent::Begin { now_secs: 10 }));
    assert!(matches!(r, Err(NetConnError::Jwt(JwtError::Jwt(_)))));
}

#[test]
fn impersonated_flow_posts_encoded_refresh_token() {
    let acct = ImpersonatedAccount {
        service_account_impersonation_url: "https://iam".to_string(),
        source_credentials: creds(),
        project_id: None,
    };
    let mut flow = FetchFlow::new(FetchAccount::ImpersonatedAccount(acct));
    let req = sent(flow.step(FetchEvent::Begin { now_secs: 0 }));
    assert_eq!(req.uri, "https://oauth2.googleapis.com/token");
    assert_eq!(
        String::from_utf8(req.body).unwrap(),
        "grant_type=refresh_token&refresh_token=1%2F%2Ftok%3D&client_id=id%201&client_secret=s%26cret"
    );
    let t = finished(flow.step(FetchEvent::Token(token("at")))).unwrap();
    assert_eq!(t.expires_in, 3599);
}

#[test]
fn workload_flow_from_file_with_impersonation() {
    let mut flow = FetchFlow::new(FetchAccount::WorkloadIdentity(workload(
        Some("/var/run/token"),
        None,
        Some("https://iam.googleapis.com/v1/sa:generateAccessToken"),
    )));
    match flow.step(FetchEvent::Begin { now_secs: 0 }) {
        FetchAction::ReadSubjectFile(p) => assert_eq!(p, "/var/run/token"),
        _ => panic!("expected a file read"),
    }
    let sts = sent(flow.step(FetchEvent::SubjectFile(Ok("  eyJ.sub/tok \n".to_string()))));
    assert_eq!(flow.state, FetchState::AwaitingSts);
    assert_eq!(sts.uri, "https://sts.googleapis.com/v1/token");
    assert_eq!(
        String::from_utf8(sts.body).unwrap(),
        "grant_type=urn:ietf:params:oauth:grant-type:token-exchange&audience=%2F%2Fiam.googleapis.com%2Fprojects%2F1%2Fpool&scope=https://www.googleapis.com/auth/cloud-platform&requested_token_type=urn:ietf:params:oauth:token-type:access_token&subject_token_type=urn%3Aietf%3Aparams%3Aoauth%3Atoken-type%3Ajwt&subject_token=eyJ.sub%2Ftok"
    );
    let imp = sent(flow.step(FetchEvent::Sts(StsTokenResponse {
        error: None,
        error_description: None,
        access_token: "fed".to_string(),
        expires_in: 3600,
        token_type: "Bearer".to_string(),
    })));
    assert_eq!(flow.state, FetchState::AwaitingImpersonation);
    assert_eq!(imp.uri, "https://iam.googleapis.com/v1/sa:generateAccessToken");
    assert_eq!(
        imp.headers,
        vec![
            ("Content-Type".to_string(), "application/json; charset=utf-8".to_string()),
            ("Authorization".to_string(), "Bearer fed".to_string()),
        ]
    );
    assert_eq!(
        String::from_utf8(imp.body).unwrap(),
        "{\"scope\":[\"https://www.googleapis.com/auth/cloud-platform\"],\"lifetime\":\"3600s\"}"
    );
    let t = finished(flow.step(FetchEvent::Impersonation {
        response: ImpersonationTokenResponse {
            access_token: "sa-token".to_string(),
            expire_time: "2023-11-14T22:13:20Z".to_string(),
        },
        now_secs: 1_700_000_000 - 100,
    }))
    .unwrap();
    assert_eq!(t.access_token, "sa-token");
    assert_eq!(t.expires_in, 100);
    assert_eq!(t.token_type, "Bearer");
}

#[test]
fn workload_flow_from_url_without_impersonation() {
    let mut flow = FetchFlow::new(FetchAccount::WorkloadIdentity(workload(
        None,
        Some("http://metadata/token"),
        None,
    )));
    let get = sent(flow.step(FetchEvent::Begin { now_secs: 0 }));
    assert_eq!(get.method, HttpMethod::Get);
    assert_eq!(get.uri, "http://metadata/token");
    assert_eq!(get.headers, vec![("Metadata-Flavor".to_string(), "Google".to_string())]);
    assert!(get.body.is_empty());
    let sts = sent(flow.step(FetchEvent::SubjectBody(b"\ttok\r\n".to_vec())));
    assert!(String::from_utf8(sts.body).unwrap().ends_with("&subject_token=tok"));
    let t = finished(flow.step(FetchEvent::Sts(StsTokenResponse {
        error: None,
        error_description: None,
        access_token: "fed".to_string(),
        expires_in: 1234,
        token_type: "Bearer".to_string(),
    })))
    .unwrap();
    assert_eq!((t.access_token.as_str(), t.expires_in), ("fed", 1234));
}

#[test]
fn workload_flow_errors() {
    let mut flow = FetchFlow::new(FetchAccount::WorkloadIdentity(workload(None, None, None)));
    assert!(matches!(
        finished(flow.step(FetchEvent::Begin { now_secs: 0 })),
        Err(NetConnError::MissingCredentialSource)
    ));
    let mut flow = FetchFlow::new(FetchAccount::WorkloadIdentity(workload(Some("/x"), None, None)));
    let _ = flow.step(FetchEvent::Begin { now_secs: 0 });
    assert!(matches!(
        finished(flow.step(FetchEvent::SubjectFile(Err(SubjectFileError::NotFound)))),
        Err(NetConnError::MissingCredentialSource)
    ));
    let mut flow = FetchFlow::new(FetchAccount::WorkloadIdentity(workload(Some("/x"), None, None)));
    let _ = flow.step(FetchEvent::Begin { now_secs: 0 });
    let e = std::io::Error::new(std::io::ErrorKind::PermissionDenied, "denied");
    assert!(matches!(
        finished(flow.step(FetchEvent::SubjectFile(Err(SubjectFileError::Other(e))))),
        Err(NetConnError::Io(_))
    ));
}

#[test]
fn out_of_step_event_ends_the_flow() {
    let mut flow = FetchFlow::new(FetchAccount::UserAccount(user(&test_key())));
    match finished(flow.step(FetchEvent::Token(token("early")))) {
        Err(NetConnError::UnexpectedResponse(m)) => assert_eq!(m, "unexpected step in the token fetch"),
        _ => panic!("expected an error"),
    }
    assert_eq!(flow.state, FetchState::Finished);
    assert!(matches!(
        finished(flow.step(FetchEvent::Begin { now_secs: 0 })),
        Err(NetConnError::UnexpectedResponse(_))
    ));
}

#[test]
fn impersonated_expiry() {
    assert_eq!(impersonated_expires_in("not a time", 1000), 3600);
    assert_eq!(impersonated_expires_in("1970-01-01T00:20:00Z", 1000), 200);
    assert_eq!(impersonated_expires_in("1970-01-01T00:00:10Z", 1000), 0);
    assert_eq!(impersonated_expires_in("1970-01-01T01:00:00+01:00", 0), 0);
}

#[test]
fn provider_token_forwarding() {
    let r = provider_token_request("https://example/token", b"{}".to_vec());
    assert_eq!(r.method, HttpMethod::Get);
    assert_eq!(r.uri, "https://example/token");
    assert_eq!(r.headers, vec![("Content-Type".to_string(), "application/json".to_string())]);
    assert_eq!(r.body, b"{}".to_vec());
    assert!(check_status(200).is_ok());
    assert!(check_status(204).is_ok());
    assert!(matches!(check_status(404), Err(NetConnError::Status(404))));
    assert!(matches!(check_status(302), Err(NetConnError::Status(302))));
}

#[test]
fn project_id_overrides() {
    let w = workload(None, None, None).with_project_id(Some("p2".to_string()));
    assert_eq!(w.project_id, "p2");
    let w = w.with_project_id(None);
    assert_eq!(w.project_id, "p2");
    let i = ImpersonatedAccount {
        service_account_impersonation_url: String::new(),
        source_credentials: creds(),
        project_id: None,
    }
    .with_project_id("p3".to_string());
    assert_eq!(i.project_id, Some("p3".to_string()));
}

