//! Tests of the endpoint decisions and the authentication utilities.

use tareas_push::api::{
    add_tarea, add_usuario, add_usuario_result, change_estado, delete_tarea_by_id,
    delete_tareas_by_id_user, get_all_tareas, get_tarea_by_id, login, AdduserResponse, ApiError,
    DbError, RegistrationStep, Tareas, TareasHttp, Usuarios, UsuariosHttp, WriteSummary,
};
use tareas_push::auth::{JwtGuard, Utils, extract_bearer_token};
use tareas_push::channel::RecvOutcome;
use tareas_push::registry::ConnectionRegistry;

fn sample_task(id: &str) -> Tareas {
    Tareas {
        id: id.to_string(),
        nombre: "comprar pan".to_string(),
        id_usuario: "u1".to_string(),
        estado: false,
        create_at: 1,
        update_at: 1,
    }
}

fn sample_user(password_hash: &str) -> Usuarios {
    Usuarios {
        id: "id-7".to_string(),
        username: "alice".to_string(),
        password: password_hash.to_string(),
        create_at: 1,
    }
}

#[test]
fn get_all_tareas_maps_results() {
    let tasks = vec![sample_task("t1"), sample_task("t2")];
    match get_all_tareas(Ok(tasks.clone())) {
        Ok(v) => assert_eq!(v.len(), 2),
        Err(_) => panic!("nonempty list must be returned"),
    }
    assert_eq!(
        get_all_tareas(Ok(vec![])).unwrap_err(),
        ApiError { status: 404, body: AdduserResponse { error: 1 } }
    );
    assert_eq!(
        get_all_tareas(Err(DbError {})).unwrap_err(),
        ApiError { status: 500, body: AdduserResponse { error: 2 } }
    );
}

#[test]
fn get_tarea_by_id_maps_results() {
    match get_tarea_by_id(Ok(vec![sample_task("t1")])) {
        Ok(v) => assert_eq!(v[0].id, "t1"),
        Err(_) => panic!("found task must be returned"),
    }
    assert_eq!(
        get_tarea_by_id(Ok(vec![])).unwrap_err(),
        ApiError { status: 404, body: AdduserResponse { error: 1 } }
    );
}

#[test]
fn add_tarea_notifies_on_success() {
    let mut reg = ConnectionRegistry::new();
    reg.register("u1".to_string(), tareas_push::channel::EventChannel::new());
    let created = vec![sample_task("t9")];
    match add_tarea(Ok(created), &mut reg) {
        Ok(v) => assert_eq!(v[0].id, "t9"),
        Err(_) => panic!("insert result must be returned"),
    }
    match reg.recv_from(&"u1".to_string()) {
        Some(RecvOutcome::Message(m)) => assert_eq!(m, "{\"event\":\"new\"}"),
        other => panic!("expected the new-task frame: {:?}", other),
    }
}

#[test]
fn add_tarea_failure_does_not_notify() {
    let mut reg = ConnectionRegistry::new();
    reg.register("u1".to_string(), tareas_push::channel::EventChannel::new());
    assert_eq!(
        add_tarea(Ok(vec![]), &mut reg).unwrap_err(),
        ApiError { status: 400, body: AdduserResponse { error: 1 } }
    );
    assert_eq!(
        add_tarea(Err(DbError {}), &mut reg).unwrap_err(),
        ApiError { status: 500, body: AdduserResponse { error: 2 } }
    );
    assert_eq!(reg.recv_from(&"u1".to_string()), Some(RecvOutcome::Empty));
}

#[test]
fn change_estado_notifies_update() {
    let mut reg = ConnectionRegistry::new();
    reg.register("u1".to_string(), tareas_push::channel::EventChannel::new());
    assert_eq!(change_estado(Ok(true), &mut reg).unwrap(), "Ok ");
    match reg.recv_from(&"u1".to_string()) {
        Some(RecvOutcome::Message(m)) => assert_eq!(m, "{\"event\":\"update\"}"),
        other => panic!("expected the update frame: {:?}", other),
    }
    assert_eq!(
        change_estado(Ok(false), &mut reg).unwrap_err(),
        ApiError { status: 500, body: AdduserResponse { error: 2 } }
    );
    assert_eq!(
        change_estado(Err(DbError {}), &mut reg).unwrap_err(),
        ApiError { status: 400, body: AdduserResponse { error: 1 } }
    );
}

#[test]
fn delete_endpoints_notify_their_tags() {
    let mut reg = ConnectionRegistry::new();
    reg.register("u1".to_string(), tareas_push::channel::EventChannel::new());
    assert_eq!(delete_tarea_by_id(Ok(true), &mut reg).unwrap(), "Ok ");
    assert_eq!(delete_tareas_by_id_user(Ok(true), &mut reg).unwrap(), "Ok ");
    match reg.recv_from(&"u1".to_string()) {
        Some(RecvOutcome::Message(m)) => assert_eq!(m, "{\"event\":\"delete_one\"}"),
        other => panic!("expected the delete_one frame: {:?}", other),
    }
    match reg.recv_from(&"u1".to_string()) {
        Some(RecvOutcome::Message(m)) => assert_eq!(m, "{\"event\":\"delete_all\"}"),
        other => panic!("expected the delete_all frame: {:?}", other),
    }
}

#[test]
fn task_write_interpretation() {
    let ws = WriteSummary { inserted: 0, replaced: 1, deleted: 0 };
    assert_eq!(Tareas::change_estado(Ok(ws)), Ok(true));
    let ws = WriteSummary { inserted: 0, replaced: 0, deleted: 0 };
    assert_eq!(Tareas::change_estado(Ok(ws)), Ok(false));
    let ws = WriteSummary { inserted: 0, replaced: 0, deleted: 2 };
    assert_eq!(Tareas::delete_tarea_by_id(Ok(ws)), Ok(true));
    assert_eq!(Tareas::delete_all_tareas_by_usuario(Ok(ws)), Ok(true));
    assert_eq!(Tareas::delete_tarea_by_id(Err(DbError {})), Err(DbError {}));

    let ws = WriteSummary { inserted: 1, replaced: 0, deleted: 0 };
    let created = vec![sample_task("t1")];
    match Tareas::add_tarea(Ok((ws, created))) {
        Ok(v) => assert_eq!(v[0].id, "t1"),
        Err(_) => panic!("inserted task must be returned"),
    }
    let ws = WriteSummary { inserted: 0, replaced: 0, deleted: 0 };
    match Tareas::add_tarea(Ok((ws, vec![sample_task("t1")]))) {
        Ok(v) => assert!(v.is_empty()),
        Err(_) => panic!("no insert gives an empty list"),
    }
}

#[test]
fn registration_steps() {
    match add_usuario(Ok(vec![])) {
        RegistrationStep::Proceed => {},
        RegistrationStep::Refused(_) => panic!("free username must proceed"),
    }
    match add_usuario(Ok(vec![sample_user("h")])) {
        RegistrationStep::Refused(e) => {
            assert_eq!(e, ApiError { status: 409, body: AdduserResponse { error: 1 } })
        },
        RegistrationStep::Proceed => panic!("taken username must be refused"),
    }
    match add_usuario(Err(DbError {})) {
        RegistrationStep::Refused(e) => {
            assert_eq!(e, ApiError { status: 500, body: AdduserResponse { error: 2 } })
        },
        RegistrationStep::Proceed => panic!("store failure must be refused"),
    }
    assert_eq!(add_usuario_result(Ok(true)), Ok(AdduserResponse { error: 0 }));
    assert_eq!(add_usuario_result(Ok(false)), Ok(AdduserResponse { error: 0 }));
    assert_eq!(
        add_usuario_result(Err(DbError {})),
        Err(ApiError { status: 500, body: AdduserResponse { error: 1 } })
    );
}

#[test]
fn password_hash_verifies_round_trip() {
    let hash = Utils::hash_password_argon2d("hunter2").unwrap();
    assert!(Utils::verify_password_argon2d("hunter2", &hash).unwrap());
    assert!(!Utils::verify_password_argon2d("wrong", &hash).unwrap());
    assert!(Utils::verify_password_argon2d("x", "not a phc string").is_err());
}

#[test]
fn login_succeeds_with_correct_password() {
    let hash = Utils::hash_password_argon2d("secreta".to_string().as_str()).unwrap();
    let stored = sample_user(&hash);
    let request = UsuariosHttp { username: "alice".to_string(), password: "secreta".to_string() };
    let token = login(&request, Ok(vec![stored])).expect("correct password must log in");
    assert_eq!(Utils::verifi_token(token).unwrap(), "id-7");
}

#[test]
fn login_rejects_wrong_password_and_missing_user() {
    let hash = Utils::hash_password_argon2d("secreta").unwrap();
    let stored = sample_user(&hash);
    let request = UsuariosHttp { username: "alice".to_string(), password: "mala".to_string() };
    assert_eq!(
        login(&request, Ok(vec![stored])).unwrap_err(),
        ApiError { status: 500, body: AdduserResponse { error: 2 } }
    );
    assert_eq!(
        login(&request, Ok(vec![])).unwrap_err(),
        ApiError { status: 400, body: AdduserResponse { error: 3 } }
    );
    assert_eq!(
        login(&request, Err(DbError {})).unwrap_err(),
        ApiError { status: 500, body: AdduserResponse { error: 4 } }
    );
}

#[test]
fn prepare_add_hashes_the_password() {
    let request = UsuariosHttp { username: "bob".to_string(), password: "pw".to_string() };
    let (hash, _create_at) = Usuarios::prepare_add(&request).unwrap();
    assert!(Utils::verify_password_argon2d("pw", &hash).unwrap());
    let ws = WriteSummary { inserted: 1, replaced: 0, deleted: 0 };
    assert_eq!(Usuarios::add_result(Ok(ws)), Ok(true));
}

#[test]
fn token_round_trip_and_tampering() {
    let token = Utils::make_jwt("alice", "user-42").unwrap();
    assert_eq!(Utils::verifi_token(token.clone()).unwrap(), "user-42");
    let mut tampered = token.clone();
    tampered.push('x');
    assert!(Utils::verifi_token(tampered).is_err());
    assert!(Utils::verifi_token("".to_string()).is_err());
}

#[test]
fn expired_token_is_refused() {
    // craft a token whose expiry is in the past, signed with the same key
    let key = b"1234afeb";
    let mut m = serde_json::Map::new();
    m.insert("sub".to_string(), serde_json::Value::String("user-1".to_string()));
    m.insert("username".to_string(), serde_json::Value::String("alice".to_string()));
    m.insert("exp".to_string(), serde_json::Value::from(1_000_000u64));
    let token = jsonwebtoken::encode(
        &jsonwebtoken::Header::default(),
        &serde_json::Value::Object(m),
        &jsonwebtoken::EncodingKey::from_secret(key),
    )
    .unwrap();
    assert!(Utils::verifi_token(token).is_err());
}

#[test]
fn bearer_header_extraction() {
    assert_eq!(extract_bearer_token("Bearer abc.def.ghi"), Some("abc.def.ghi".to_string()));
    assert_eq!(extract_bearer_token("Bearer "), Some("".to_string()));
    assert_eq!(extract_bearer_token("Basic abc"), None);
    assert_eq!(extract_bearer_token(""), None);
}

#[test]
fn jwt_guard_admits_only_verified_bearer_tokens() {
    let token = Utils::make_jwt("alice", "user-9").unwrap();
    let header = format!("Bearer {}", token);
    let guard = JwtGuard::from_auth_header(&header).expect("verified token must pass the guard");
    assert_eq!(guard.id_usuario, "user-9");
    assert!(JwtGuard::from_auth_header("Bearer nonsense").is_none());
    assert!(JwtGuard::from_auth_header(&token).is_none());
}

#[test]
fn generar_string_respects_bounds() {
    for _ in 0..50 {
        let s = Utils::generar_string(4);
        assert!(!s.is_empty() && s.len() <= 4);
        assert!(s.chars().all(|c| c.is_ascii_alphanumeric()));
    }
}

#[test]
fn current_timestamp_is_recent() {
    // milliseconds since the epoch: well past the year 2020 on any sane clock
    assert!(Utils::current_timestamp() > 1_500_000_000_000);
}

#[test]
fn request_bodies_validate() {
    let t = TareasHttp { nombre: "n".to_string() };
    assert!(t.validate());
    let u = UsuariosHttp { username: "a".to_string(), password: "b".to_string() };
    assert!(u.validate());
}
