use chronix::clone::{fork, fork_register, CLONE_THREAD, CLONE_VM};
use chronix::duration::Duration;
use chronix::errno::SysError;
use chronix::fd_table::FdTable;
use chronix::manager::{ProcessGroupManager, TaskManager};
use chronix::mq::{mq_open_finish, sys_mq_open, MqAttr, MqOpen, MqRegistry, O_CREAT};
use chronix::sys_fs::sys_umask;
use chronix::thread_group::ThreadGroup;
use chronix::timer::{Timer, TimerManager};

#[test]
fn umask_keeps_the_mask_set() {
    let mut umask: u32 = 0o022;
    assert_eq!(sys_umask(&mut umask, 0o7077), Ok(0o022));
    assert_eq!(umask, 0o077);
    // a later call reports the mask set before
    assert_eq!(sys_umask(&mut umask, 0), Ok(0o077));
    assert_eq!(umask, 0);
}

#[test]
fn mq_open_creates_registers_and_installs() {
    let mut reg = MqRegistry::new();
    let mut table = FdTable::new(3);
    let open = sys_mq_open(&reg, "/q", O_CREAT, 1000, None).unwrap();
    assert!(matches!(open, MqOpen::Create(MqAttr { mq_maxmsg: 10, mq_msgsize: 256, .. })));
    assert_eq!(mq_open_finish(&mut reg, &mut table, "/q", 1000, open, 40), Ok(3));
    assert_eq!(table.get_file(3), Ok(40));
    // the queue is now registered with its owner: opening it again finds it
    let again = sys_mq_open(&reg, "/q", 0, 1000, None).unwrap();
    assert_eq!(again, MqOpen::Existing(40));
    assert_eq!(mq_open_finish(&mut reg, &mut table, "/q", 1000, again, 99), Ok(4));
    assert_eq!(table.get_file(4), Ok(40));
    // another user may not open it
    assert_eq!(sys_mq_open(&reg, "/q", 0, 7, None), Err(SysError::EACCES));
}

#[test]
fn every_due_timer_is_taken_in_order() {
    let d = |s: u64| Duration::new(s, 0);
    let mut m: TimerManager<u8> = TimerManager::new();
    m.add_timer(Timer::new(d(5), 5));
    m.add_timer(Timer::new(d(2), 2));
    m.add_timer(Timer::new(d(9), 9));
    m.add_timer(Timer::new(d(3), 3));
    let due: Vec<u8> = m.take_expired(d(5)).into_iter().map(|t| t.data).collect();
    assert_eq!(due, vec![2, 3, 5]);
    assert_eq!(m.len(), 1);
    assert!(m.take_expired(d(8)).is_empty());
    let due: Vec<u8> = m.take_expired(d(9)).into_iter().map(|t| t.data).collect();
    assert_eq!(due, vec![9]);
    assert_eq!(m.len(), 0);
}

#[test]
fn forked_tasks_join_their_registries() {
    let mut tasks = TaskManager::new();
    let mut groups = ProcessGroupManager::new();
    groups.add_group(1);
    let mut children: Vec<usize> = Vec::new();
    // a new process: a child of the parent and a member of the group
    let mut own = ThreadGroup::new();
    fork_register(&fork(0), &mut children, &mut own, &mut tasks, &mut groups, 2, 20, 1);
    assert_eq!(children, vec![2]);
    assert_eq!(own.len(), 1);
    assert_eq!(groups.get_group(1), Some(vec![1, 2]));
    assert_eq!(tasks.get_task(2), Some(20));
    // a thread: neither a child nor a group member
    let mut shared = ThreadGroup::new();
    shared.push(1, false);
    fork_register(&fork(CLONE_VM | CLONE_THREAD), &mut children, &mut shared, &mut tasks, &mut groups, 3, 30, 1);
    assert_eq!(children, vec![2]);
    assert_eq!(shared.len(), 2);
    assert_eq!(groups.get_group(1), Some(vec![1, 2]));
    assert_eq!(tasks.get_task(3), Some(30));
}
