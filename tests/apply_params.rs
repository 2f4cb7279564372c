use sutra_uplc::gateway::apply_reply;
use sutra_uplc::marshal::copy_bytes;
use sutra_uplc::reply::Reply;

fn script_of(source: &str) -> Vec<u8> {
    let named = uplc::parser::program(source).unwrap();
    let program: uplc::ast::Program<uplc::ast::DeBruijn> = named.try_into().unwrap();
    program.to_cbor().unwrap()
}

// Copies both buffers, applies on the engine and tags what it returned.
fn do_apply_params_to_script(script: &[u8], params: &[u8]) -> Reply<Vec<u8>> {
    let script = copy_bytes(script);
    let params = copy_bytes(params);
    apply_reply(uplc::tx::apply_params_to_script(&params, &script).map_err(|e| e.to_string()))
}

fn applied(r: Reply<Vec<u8>>) -> Vec<u8> {
    match r {
        Reply::Success(v) => v,
        Reply::Failure(m) => panic!("unexpected failure: {}", m),
    }
}

#[test]
fn empty_parameter_list_leaves_script_unchanged() {
    let script = script_of("(program 1.0.0 (lam x x))");
    let out = applied(do_apply_params_to_script(&script, &[0x80]));
    assert_eq!(out, script);
}

#[test]
fn one_parameter_changes_the_script() {
    let script = script_of("(program 1.0.0 (lam x x))");
    let out = applied(do_apply_params_to_script(&script, &[0x81, 0x01]));
    assert_ne!(out, script);
    let expected = script_of("(program 1.0.0 [(lam x x) (con data (I 1))])");
    assert_eq!(out, expected);
}

#[test]
fn application_is_deterministic() {
    let script = script_of("(program 1.0.0 (lam a (lam b a)))");
    let params = [0x82, 0x01, 0x02];
    let first = applied(do_apply_params_to_script(&script, &params));
    let second = applied(do_apply_params_to_script(&script, &params));
    assert_eq!(first, second);
}

#[test]
fn parameters_that_are_not_a_list_fail() {
    let script = script_of("(program 1.0.0 (lam x x))");
    let r = do_apply_params_to_script(&script, &[0x01]);
    assert!(!r.is_success());
    assert!(matches!(r, Reply::Failure(_)));
}

#[test]
fn malformed_script_fails() {
    let r = do_apply_params_to_script(&[0xff, 0x00, 0x13], &[0x80]);
    assert!(!r.is_success());
}

#[test]
fn apply_reply_tags_both_arms() {
    assert!(matches!(apply_reply(Ok(vec![1, 2])), Reply::Success(v) if v == vec![1, 2]));
    match apply_reply(Err("bad".to_string())) {
        Reply::Failure(m) => assert_eq!(m, "bad"),
        Reply::Success(_) => panic!("an error must give the failure arm"),
    }
}

#[test]
fn refused_application_carries_engine_text() {
    let script = script_of("(program 1.0.0 (lam x x))");
    match do_apply_params_to_script(&script, &[0x01]) {
        Reply::Failure(m) => assert_eq!(m, uplc::tx::error::Error::ApplyParamsError.to_string()),
        Reply::Success(_) => panic!("parameters that are not a list must fail"),
    }
}
