use acme_azure_function::pem;

#[test]
fn a_chain_is_split_into_certificates() {
    let chain = "-----BEGIN CERTIFICATE-----\nAAAA\nBBBB\n-----END CERTIFICATE-----\n\n-----BEGIN CERTIFICATE-----\r\nCCCC\r\n-----END CERTIFICATE-----\r\n";
    assert_eq!(pem::split(chain).unwrap(), ["AAAABBBB", "CCCC"]);
    let empty = "-----BEGIN CERTIFICATE-----\n-----END CERTIFICATE-----";
    assert_eq!(pem::split(empty).unwrap(), [""]);
    let between = "-----BEGIN CERTIFICATE-----\nA\n-----END CERTIFICATE-----\nB\n-----END CERTIFICATE-----\n";
    assert_eq!(pem::split(between).unwrap(), ["A", "B"]);
}

#[test]
fn malformed_chains_are_refused() {
    let chain = |s: &str| pem::split(s).unwrap_err().chain;
    assert_eq!(chain(""), ["malformed PEM: does not start with BEGIN CERTIFICATE"]);
    assert_eq!(
        chain("\n-----BEGIN CERTIFICATE-----\n"),
        ["malformed PEM: does not start with BEGIN CERTIFICATE"]
    );
    assert_eq!(
        chain("-----BEGIN CERTIFICATE-----\nA\n-----BEGIN CERTIFICATE-----\n"),
        ["malformed PEM: BEGIN CERTIFICATE without prior END CERTIFICATE"]
    );
    assert_eq!(
        chain("-----BEGIN CERTIFICATE-----\nA\n"),
        ["malformed PEM: BEGIN CERTIFICATE without corresponding END CERTIFICATE"]
    );
}

#[test]
fn written_chains_are_split_again() {
    let bodies = [vec!["AAAA", "BBBB"], vec!["CCCC"], vec!["DDDD", "EEEE", "FF=="]];
    let mut chain = String::new();
    for lines in &bodies {
        chain.push_str("-----BEGIN CERTIFICATE-----\n");
        for line in lines {
            chain.push_str(line);
            chain.push('\n');
        }
        chain.push_str("-----END CERTIFICATE-----\n");
    }
    let expected: Vec<String> = bodies.iter().map(|lines| lines.concat()).collect();
    assert_eq!(pem::split(&chain).unwrap(), expected);
}
