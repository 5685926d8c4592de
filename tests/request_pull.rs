use request_pull::error::{self, Replicate};
use request_pull::exchange::{authorised, begin, respond};
use request_pull::progress;
use request_pull::replication::{Action, Phase, Session, Updated};
use request_pull::{
    AllowAll, AllowList, Error, Guard, Oid, Paths, PeerId, Progress, Ref, Request, Response,
    State, Success, Urn, FRAMED_BUFSIZ,
};

fn urn(s: &str) -> Urn {
    Urn::new(s.to_string())
}

fn peer(s: &str) -> PeerId {
    PeerId::new(s.to_string())
}

fn oid(b: u8) -> Oid {
    Oid { bytes: [b; 20] }
}

fn state(peers: Vec<PeerId>) -> State<(), AllowList> {
    State::new((), Paths { root: "/tmp/link".to_string() }, AllowList::new(peers))
}

/// Runs a session to its end with the given engine outcomes and answers to
/// the lookups of symbolic targets.
fn run(updates: Vec<Updated>, lookups: Vec<Result<Oid, String>>) -> (Vec<String>, Action) {
    let (mut session, first) = Session::new();
    assert_eq!(first, Action::Initialise);
    assert_eq!(session.initialised(Ok(())), Action::AcquireStorage);
    assert_eq!(session.acquired(Ok(())), Action::Replicate);
    assert_eq!(session.replicated(Ok(updates)), Action::AcquireReader);
    let mut asked = Vec::new();
    let mut lookups = lookups.into_iter();
    let mut action = session.reader_acquired(Ok(()));
    while let Action::Resolve(target) = action {
        asked.push(target);
        action = session.resolved(lookups.next().expect("an answer for each lookup"));
    }
    assert_eq!(session.phase, Phase::Finished);
    (asked, action)
}

#[test]
fn allowed_peer_gets_direct_and_pruned_refs() {
    let st = state(vec![peer("P")]);
    let req = Request { urn: urn("rad:git:U") };
    let opening = begin(&st, &peer("P"), &req);
    assert!(opening.proceed);
    assert_eq!(opening.responses.len(), 3);
    assert_eq!(
        opening.responses[1],
        Response::Progress(Progress { message: "request-pull allowed".to_string() })
    );
    let (asked, action) = run(
        vec![
            Updated::Direct { name: "refs/heads/main".to_string(), target: oid(0xab) },
            Updated::Prune { name: "refs/heads/old".to_string() },
        ],
        vec![],
    );
    assert!(asked.is_empty());
    let expected = Success {
        refs: vec![Ref { name: "refs/heads/main".to_string(), oid: oid(0xab) }],
        pruned: vec!["refs/heads/old".to_string()],
    };
    assert_eq!(action, Action::Finish(Ok(expected.clone())));
    match action {
        Action::Finish(result) => assert_eq!(respond(result), Response::Success(expected)),
        _ => unreachable!(),
    }
}

#[test]
fn denied_peer_gets_guard_error_and_no_replication() {
    let st = state(vec![peer("Q")]);
    let req = Request { urn: urn("rad:git:U") };
    let opening = begin(&st, &peer("P"), &req);
    assert!(!opening.proceed);
    assert_eq!(
        opening.responses,
        vec![
            Response::Progress(Progress {
                message: "Checking if request-pull is allowed for `rad:git:U`".to_string()
            }),
            Response::Error(Error {
                message: "request-pull denied: peer is not allowed".to_string()
            }),
        ]
    );
}

#[test]
fn opening_reports_guard_output_then_replication() {
    let u = urn("rad:git:U");
    let verdict: Result<String, String> = Ok("tracking P".to_string());
    let opening = authorised(&u, verdict);
    assert!(opening.proceed);
    assert_eq!(
        opening.responses,
        vec![
            Response::Progress(Progress {
                message: "Checking if request-pull is allowed for `rad:git:U`".to_string()
            }),
            Response::Progress(Progress { message: "tracking P".to_string() }),
            Response::Progress(Progress {
                message: "Starting replication for `rad:git:U`".to_string()
            }),
        ]
    );
    let refused: Result<String, String> = Err("not tracked".to_string());
    let opening = authorised(&u, refused);
    assert!(!opening.proceed);
    assert_eq!(
        opening.responses[1],
        Response::Error(Error { message: "not tracked".to_string() })
    );
}

#[test]
fn pool_exhaustion_is_an_internal_error() {
    let (mut session, _) = Session::new();
    session.initialised(Ok(()));
    let action = session.acquired(Err("pool exhausted".to_string()));
    assert_eq!(action, Action::Finish(Err(Replicate::Pool("pool exhausted".to_string()))));
    assert_eq!(session.phase, Phase::Finished);
    match action {
        Action::Finish(result) => assert_eq!(
            respond(result),
            Response::Error(Error { message: "internal error".to_string() })
        ),
        _ => unreachable!(),
    }
}

#[test]
fn init_failure_is_an_internal_error() {
    let (mut session, _) = Session::new();
    let action = session.initialised(Err("no git dir".to_string()));
    assert_eq!(action, Action::Finish(Err(Replicate::Init("no git dir".to_string()))));
    assert_eq!(
        respond(Err(Replicate::Init("no git dir".to_string()))),
        Response::Error(Error { message: "internal error".to_string() })
    );
}

#[test]
fn engine_failure_is_disclosed() {
    let (mut session, _) = Session::new();
    session.initialised(Ok(()));
    session.acquired(Ok(()));
    let action = session.replicated(Err("connection reset".to_string()));
    assert_eq!(
        action,
        Action::Finish(Err(Replicate::Replication("connection reset".to_string())))
    );
    assert_eq!(
        respond(Err(Replicate::Replication("connection reset".to_string()))),
        Response::Error(Error {
            message: "request-pull replication error: connection reset".to_string()
        })
    );
}

#[test]
fn second_pool_failure_is_a_pool_error() {
    let (mut session, _) = Session::new();
    session.initialised(Ok(()));
    session.acquired(Ok(()));
    session.replicated(Ok(vec![Updated::Prune { name: "refs/heads/x".to_string() }]));
    let action = session.reader_acquired(Err("busy".to_string()));
    assert_eq!(action, Action::Finish(Err(Replicate::Pool("busy".to_string()))));
}

#[test]
fn symbolic_ref_resolves_through_storage() {
    let (asked, action) = run(
        vec![
            Updated::Symbolic {
                name: "refs/heads/HEAD".to_string(),
                target_ref: "refs/heads/main".to_string(),
            },
            Updated::Direct { name: "refs/heads/dev".to_string(), target: oid(2) },
        ],
        vec![Ok(oid(7))],
    );
    assert_eq!(asked, vec!["refs/heads/main".to_string()]);
    assert_eq!(
        action,
        Action::Finish(Ok(Success {
            refs: vec![
                Ref { name: "refs/heads/HEAD".to_string(), oid: oid(7) },
                Ref { name: "refs/heads/dev".to_string(), oid: oid(2) },
            ],
            pruned: vec![],
        }))
    );
}

#[test]
fn unresolved_symbolic_ref_fails_the_whole_call() {
    let (asked, action) = run(
        vec![
            Updated::Direct { name: "refs/heads/dev".to_string(), target: oid(2) },
            Updated::Symbolic {
                name: "refs/heads/HEAD".to_string(),
                target_ref: "refs/heads/gone".to_string(),
            },
            Updated::Prune { name: "refs/heads/old".to_string() },
        ],
        vec![Err("not found".to_string())],
    );
    assert_eq!(asked, vec!["refs/heads/gone".to_string()]);
    assert_eq!(action, Action::Finish(Err(Replicate::Read("not found".to_string()))));
    match action {
        Action::Finish(result) => assert_eq!(
            respond(result),
            Response::Error(Error { message: "internal error".to_string() })
        ),
        _ => unreachable!(),
    }
}

#[test]
fn counts_and_order_follow_the_engine() {
    let (_, action) = run(
        vec![
            Updated::Prune { name: "refs/tags/a".to_string() },
            Updated::Direct { name: "refs/heads/z".to_string(), target: oid(1) },
            Updated::Symbolic { name: "refs/heads/s".to_string(), target_ref: "refs/heads/z".to_string() },
            Updated::Prune { name: "refs/tags/b".to_string() },
            Updated::Direct { name: "refs/heads/a".to_string(), target: oid(3) },
        ],
        vec![Ok(oid(1))],
    );
    match action {
        Action::Finish(Ok(s)) => {
            assert_eq!(s.refs.len(), 3);
            assert_eq!(s.pruned, vec!["refs/tags/a".to_string(), "refs/tags/b".to_string()]);
            let names: Vec<&str> = s.refs.iter().map(|r| r.name.as_str()).collect();
            assert_eq!(names, vec!["refs/heads/z", "refs/heads/s", "refs/heads/a"]);
        },
        other => panic!("unexpected {:?}", other),
    }
}

#[test]
fn more_than_a_hundred_refs_are_all_kept() {
    let updates: Vec<Updated> = (0..150)
        .map(|i| Updated::Direct { name: format!("refs/{:05}", i), target: oid(1) })
        .collect();
    let (_, action) = run(updates, vec![]);
    match action {
        Action::Finish(Ok(s)) => {
            assert_eq!(s.refs.len(), 150);
            assert_eq!(s.refs[149].name, "refs/00149");
            assert!(s.fits_frame());
        },
        other => panic!("unexpected {:?}", other),
    }
}

#[test]
fn repeated_request_against_unchanged_remote_reports_nothing() {
    for _ in 0..2 {
        let (asked, action) = run(vec![], vec![]);
        assert!(asked.is_empty());
        assert_eq!(action, Action::Finish(Ok(Success { refs: vec![], pruned: vec![] })));
    }
}

#[test]
fn hundred_refs_of_ten_characters_fit_the_frame() {
    assert_eq!(FRAMED_BUFSIZ, 20000);
    let refs: Vec<Ref> = (0..100).map(|i| Ref { name: format!("refs/{:05}", i), oid: oid(i as u8) }).collect();
    assert!(refs.iter().all(|r| r.name.chars().count() == 10));
    let s = Success { refs, pruned: vec![] };
    assert!(s.fits_frame());
}

#[test]
fn oversized_success_does_not_fit_the_frame() {
    let s = Success {
        refs: vec![Ref { name: "x".repeat(19980), oid: oid(0) }],
        pruned: vec![],
    };
    assert!(s.fits_frame());
    let s = Success {
        refs: vec![Ref { name: "x".repeat(19981), oid: oid(0) }],
        pruned: vec![],
    };
    assert!(!s.fits_frame());
    let s = Success {
        refs: vec![Ref { name: "x".repeat(19980), oid: oid(0) }],
        pruned: vec!["y".to_string()],
    };
    assert!(!s.fits_frame());
    assert!(Success::new().fits_frame());
}

#[test]
fn wire_errors_have_their_fixed_texts() {
    assert_eq!(error::decode_failed().message, "failed to decode request");
    assert_eq!(error::internal_error().message, "internal error");
    assert_eq!(
        error::replication_error(Replicate::Replication("boom".to_string())).message,
        "request-pull replication error: boom"
    );
    assert_eq!(
        error::replication_error(Replicate::Pool("x".to_string())).message,
        "request-pull replication error: internal error: could not get handle to storage"
    );
    assert_eq!(
        Replicate::Init("x".to_string()).message(),
        "internal error: could not intialise storage"
    );
    assert_eq!(
        Replicate::Read("x".to_string()).message(),
        "internal error: failed to look up symbolic-ref target"
    );
    assert_eq!(error::guard("no access".to_string()).message, "no access");
    assert_eq!(error::to_wire(Replicate::Read("x".to_string())).message, "internal error");
}

#[test]
fn progress_notices_name_the_urn() {
    let u = urn("rad:git:hnrk");
    assert_eq!(progress::replicating(&u).message, "Starting replication for `rad:git:hnrk`");
    assert_eq!(
        progress::authorizing(&u).message,
        "Checking if request-pull is allowed for `rad:git:hnrk`"
    );
    assert_eq!(progress::guard("tracked".to_string()).message, "tracked");
}

#[test]
fn guards_decide_by_peer() {
    let u = urn("rad:git:U");
    assert_eq!(AllowAll.guard(&peer("anyone"), &u), Ok("request-pull allowed".to_string()));
    let list = AllowList::new(vec![peer("A"), peer("B")]);
    assert!(list.guard(&peer("B"), &u).is_ok());
    assert_eq!(
        list.guard(&peer("C"), &u),
        Err("request-pull denied: peer is not allowed".to_string())
    );
    let st = State::new(7u8, Paths { root: "/srv".to_string() }, AllowAll);
    assert_eq!(st.storage, 7);
    assert_eq!(st.paths.root, "/srv");
    assert!(st.guard(&peer("x"), &u).is_ok());
}
