use asyncs::mpsc;
use asyncs::oneshot;

#[test]
fn mpsc_fill_to_capacity_then_full() {
    let (tx, mut rx) = mpsc::channel::<u32>(2);
    assert!(tx.try_send(1).is_ok());
    assert!(tx.try_send(2).is_ok());
    match tx.try_send(3) {
        Err(mpsc::TrySendError::Full(v)) => assert_eq!(v, 3),
        _ => panic!("expected the queue to be full"),
    }
    assert_eq!(rx.try_recv(), Ok(1));
    assert!(tx.try_send(3).is_ok());
}

#[test]
fn mpsc_minimum_capacity_one() {
    let (tx, mut rx) = mpsc::channel::<u32>(1);
    assert!(tx.try_send(9).is_ok());
    match tx.try_send(10) {
        Err(mpsc::TrySendError::Full(v)) => assert_eq!(v, 10),
        _ => panic!("expected the queue to be full"),
    }
    assert_eq!(rx.try_recv(), Ok(9));
}

#[test]
fn mpsc_all_senders_dropped_then_closed() {
    let (tx, mut rx) = mpsc::channel::<u32>(2);
    let tx2 = tx.clone();
    assert!(tx.try_send(5).is_ok());
    drop(tx);
    assert_eq!(rx.try_recv(), Ok(5));
    assert_eq!(rx.try_recv(), Err(mpsc::TryRecvError::Empty));
    drop(tx2);
    assert_eq!(rx.try_recv(), Err(mpsc::TryRecvError::Closed));
    assert_eq!(rx.try_recv(), Err(mpsc::TryRecvError::Closed));
}

#[test]
fn mpsc_pending_recv_sees_senders_drop() {
    let rt = tokio::runtime::Builder::new_current_thread().build().unwrap();
    let (tx, mut rx) = mpsc::channel::<u32>(1);
    let got = rt.block_on(async move {
        let dropper = tokio::task::spawn(async move {
            tokio::task::yield_now().await;
            drop(tx);
        });
        let got = rx.half.inner.recv().await;
        dropper.await.unwrap();
        got
    });
    assert_eq!(got, None);
}

#[test]
fn mpsc_receiver_dropped_value_comes_back() {
    let (tx, rx) = mpsc::channel::<String>(1);
    drop(rx);
    match tx.try_send(String::from("hello")) {
        Err(mpsc::TrySendError::Closed(v)) => assert_eq!(v, "hello"),
        _ => panic!("expected the channel to be closed"),
    }
}

#[test]
fn mpsc_close_refuses_new_sends_but_drains() {
    let (tx, mut rx) = mpsc::channel::<u32>(2);
    assert!(tx.try_send(1).is_ok());
    rx.close();
    match tx.try_send(2) {
        Err(mpsc::TrySendError::Closed(v)) => assert_eq!(v, 2),
        _ => panic!("expected the channel to be closed"),
    }
    assert_eq!(rx.try_recv(), Ok(1));
    assert_eq!(rx.try_recv(), Err(mpsc::TryRecvError::Closed));
}

#[test]
fn mpsc_one_sender_keeps_order() {
    let (tx, mut rx) = mpsc::channel::<u32>(3);
    assert!(tx.try_send(1).is_ok());
    assert!(tx.try_send(2).is_ok());
    assert!(tx.try_send(3).is_ok());
    assert_eq!(rx.try_recv(), Ok(1));
    assert_eq!(rx.try_recv(), Ok(2));
    assert_eq!(rx.try_recv(), Ok(3));
}

#[test]
fn mpsc_order_kept_under_interleaving() {
    let (tx, mut rx) = mpsc::channel::<u32>(4);
    let other = tx.clone();
    assert!(tx.try_send(1).is_ok());
    assert!(other.try_send(10).is_ok());
    assert!(tx.try_send(2).is_ok());
    assert!(tx.try_send(3).is_ok());
    let mut seen: Vec<u32> = Vec::new();
    while let Ok(v) = rx.try_recv() {
        seen.push(v);
    }
    assert_eq!(seen, vec![1, 10, 2, 3]);
    let own: Vec<u32> = seen.into_iter().filter(|v| *v < 10).collect();
    assert_eq!(own, vec![1, 2, 3]);
}

#[test]
fn oneshot_send_is_observed_exactly() {
    let (tx, mut rx) = oneshot::channel::<u32>();
    assert!(tx.send(42).is_ok());
    assert_eq!(rx.try_recv(), Ok(42));
}

#[test]
fn oneshot_receiver_dropped_value_comes_back() {
    let (tx, rx) = oneshot::channel::<u32>();
    drop(rx);
    assert_eq!(tx.send(7), Err(7));
}

#[test]
fn oneshot_resolves_at_most_once() {
    let (tx, mut rx) = oneshot::channel::<u32>();
    assert_eq!(rx.try_recv(), Err(oneshot::TryRecvError::Empty));
    assert!(tx.send(1).is_ok());
    assert_eq!(rx.try_recv(), Ok(1));
    assert_eq!(rx.try_recv(), Err(oneshot::TryRecvError::Closed));
    assert_eq!(rx.try_recv(), Err(oneshot::TryRecvError::Closed));
}

#[test]
fn oneshot_sender_dropped_without_sending() {
    let (tx, mut rx) = oneshot::channel::<u32>();
    drop(tx);
    assert_eq!(rx.try_recv(), Err(oneshot::TryRecvError::Closed));
}

#[test]
fn oneshot_awaited_receiver_gets_the_value() {
    let rt = tokio::runtime::Builder::new_current_thread().build().unwrap();
    let (tx, rx) = oneshot::channel::<u32>();
    let got = rt.block_on(async move {
        let sender = tokio::task::spawn(async move {
            tokio::task::yield_now().await;
            let _ = tx.send(33);
        });
        let got = rx.half.inner.await;
        sender.await.unwrap();
        got
    });
    assert_eq!(got, Ok(33));
}
