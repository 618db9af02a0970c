use sibyl::oci;
use sibyl::pool::session::{PoolState, POOL_CREATE_MODE, SESSION_GET_MODE};
use sibyl::{Connection, Error, SessionPool};

fn pool(min: usize, inc: usize, max: usize) -> SessionPool {
    SessionPool::new(min, inc, max, Ok("SIBYL_POOL".to_string())).ok().unwrap()
}

fn exhausted() -> Error {
    Error::Oracle(24418, "ORA-24418: Cannot open further sessions.".to_string())
}

#[test]
fn modes_of_the_pool() {
    assert_eq!(POOL_CREATE_MODE, 0x0006);
    assert_eq!(SESSION_GET_MODE, 0x0081);
    assert_eq!(POOL_CREATE_MODE, oci::OCI_SPC_HOMOGENEOUS | oci::OCI_SPC_STMTCACHE);
    assert_eq!(SESSION_GET_MODE, oci::OCI_SESSGET_SPOOL | oci::OCI_SESSGET_PURITY_SELF);
}

#[test]
fn a_new_pool_has_its_minimum_open() {
    let p = pool(0, 1, 10);
    assert_eq!(p.pool_name(), "SIBYL_POOL");
    assert_eq!((p.open_count(), p.busy_count()), (0, 0));
    assert!(p.available());
    let p = pool(2, 1, 3);
    assert_eq!((p.open_count(), p.busy_count()), (2, 0));
    let p = pool(5, 1, 3);
    assert_eq!(p.open_count(), 3);
    let p = pool(0, 0, 3);
    assert!(p.available());
    let p = pool(0, 1, 0);
    assert!(!p.available());
}

#[test]
fn pool_creation_failure_is_passed_on() {
    let e = Error::Oracle(12154, "TNS:could not resolve the connect identifier specified".to_string());
    match SessionPool::new(0, 1, 10, Err(e.clone())) {
        Err(got) => assert_eq!(got, e),
        Ok(_) => panic!("error expected"),
    }
}

#[test]
fn the_pool_grows_by_its_increment() {
    let mut p = pool(1, 2, 4);
    let a = p.get_session(Ok(0x1)).unwrap();
    assert_eq!(a.get_svc_ctx(), 0x1);
    assert_eq!((p.open_count(), p.busy_count()), (1, 1));
    let _b = p.get_session(Ok(0x2)).unwrap();
    assert_eq!((p.open_count(), p.busy_count()), (3, 2));
    let _c = p.get_session(Ok(0x3)).unwrap();
    assert_eq!((p.open_count(), p.busy_count()), (3, 3));
    let _d = p.get_session(Ok(0x4)).unwrap();
    assert_eq!((p.open_count(), p.busy_count()), (4, 4));
    assert!(!p.available());
    p.release(a);
    assert_eq!((p.open_count(), p.busy_count()), (4, 3));
    assert!(p.available());
    assert_eq!(p.get_svc_ctx(Ok(0x5)), Ok(0x5));
    assert_eq!((p.open_count(), p.busy_count()), (4, 4));
}

#[test]
fn a_pool_without_increment_opens_one_session_at_a_time() {
    let mut p = pool(0, 0, 2);
    let _a = p.get_session(Ok(1)).unwrap();
    assert_eq!((p.open_count(), p.busy_count()), (1, 1));
    let _b = p.get_session(Ok(2)).unwrap();
    assert_eq!((p.open_count(), p.busy_count()), (2, 2));
}

#[test]
fn the_answer_of_the_call_interface_is_passed_on() {
    let mut p = pool(0, 1, 1);
    let e = Error::Oracle(1017, "invalid username/password; logon denied".to_string());
    assert_eq!(p.get_session(Err(e.clone())), Err(e.clone()));
    assert_eq!(p.get_svc_ctx(Err(e.clone())), Err(e.clone()));
    assert_eq!((p.open_count(), p.busy_count()), (0, 0));
    assert!(p.available());

    let a = p.get_session(Ok(7)).unwrap();
    assert!(!p.available());
    assert_eq!(p.get_session(Err(exhausted())), Err(exhausted()));
    assert_eq!(p.get_svc_ctx(Err(e.clone())), Err(e));
    assert_eq!((p.open_count(), p.busy_count()), (1, 1));

    let b = p.get_session(Ok(8)).unwrap();
    assert_eq!(b.get_svc_ctx(), 8);
    assert_eq!(p.get_svc_ctx(Ok(9)), Ok(9));
    assert_eq!((p.open_count(), p.busy_count()), (1, 1));
    p.release(a);
    assert_eq!((p.open_count(), p.busy_count()), (1, 0));
}

#[test]
fn more_workers_than_sessions() {
    let workers = 98;
    let max = 10;
    let mut p = pool(0, 1, max);
    let mut out: Vec<Connection> = Vec::new();
    let mut waiting = 0;
    for w in 0..workers {
        if p.available() {
            out.push(p.get_session(Ok(w as u64)).unwrap());
        } else {
            assert_eq!(p.get_session(Err(exhausted())), Err(exhausted()));
            waiting += 1;
        }
        assert!(p.open_count() <= max);
        assert!(p.busy_count() <= p.open_count());
    }
    assert_eq!(out.len(), max);
    assert_eq!(waiting, workers - max);
    assert_eq!(p.open_count(), max);
    while waiting > 0 {
        assert!(!p.available());
        let done = out.pop().unwrap();
        p.release(done);
        assert!(p.available());
        out.push(p.get_session(Ok(1000 + waiting as u64)).unwrap());
        waiting -= 1;
        assert_eq!((p.open_count(), p.busy_count()), (max, max));
    }
    while let Some(done) = out.pop() {
        p.release(done);
    }
    assert_eq!((p.open_count(), p.busy_count()), (max, 0));
}

#[test]
fn release_to_an_idle_pool() {
    let mut p = pool(1, 1, 2);
    let mut other = pool(1, 1, 2);
    let conn = other.get_session(Ok(7)).unwrap();
    p.release(conn);
    assert_eq!((p.open_count(), p.busy_count()), (1, 0));
}

#[test]
fn request_for_a_pool() {
    let r = SessionPool::request("localhost/orcl", "hr", "secret", 0, 1, 10);
    assert_eq!(
        (r.dbname.as_str(), r.username.as_str(), r.password.as_str()),
        ("localhost/orcl", "hr", "secret")
    );
    assert_eq!((r.min, r.inc, r.max, r.mode), (0, 1, 10, 6));
}

#[test]
fn pool_states() {
    let s = PoolState { min: 0, inc: 1, max: 3, open: 0, busy: 0 };
    assert_eq!(s, PoolState { min: 0, inc: 1, max: 3, open: 0, busy: 0 });
}
