use std::sync::{Arc, Mutex};

use message_plugins::{BoundedQueue, Host, LoadError, Message, Plugin, Worker};

/// A plugin that appends every command it is handed to a shared log, and
/// asks to stop, with status `code`, when it sees the command `stop_at`.
struct Recorder {
    log: Arc<Mutex<Vec<u64>>>,
    stop_at: Option<u64>,
    code: u8,
}

impl Plugin<u64> for Recorder {
    // The model half of the capability contract: the recorder's state (the
    // log behind the shared handle) gains the command, and it answers
    // `Some(code)` exactly on the command it was told to stop at.
    fn next_state(self, _command: u64) -> Self {
        self
    }

    fn response(self, command: u64) -> Option<u8> {
        if self.stop_at == Some(command) {
            Some(self.code)
        } else {
            None
        }
    }

    fn handle_message(&mut self, message: Message<u64>) -> Option<u8> {
        let value = *message.as_ref();
        self.log.lock().unwrap().push(value);
        if self.stop_at == Some(value) {
            Some(self.code)
        } else {
            None
        }
    }
}

fn recorder(stop_at: Option<u64>, code: u8) -> (Recorder, Arc<Mutex<Vec<u64>>>) {
    let log = Arc::new(Mutex::new(Vec::new()));
    (Recorder { log: log.clone(), stop_at, code }, log)
}

#[test]
fn send_with_no_plugins_neither_blocks_nor_errors() {
    let mut host: Host<u64, Recorder> = Host::new();
    host.send(1);
    host.send(2);
    let statuses = host.end();
    assert!(statuses.is_empty());
}

#[test]
fn plugin_sees_commands_in_send_order() {
    let (plugin, log) = recorder(None, 0);
    let mut host = Host::new();
    host.attach(plugin);
    host.send(10);
    host.send(20);
    host.send(30);
    let statuses = host.end();
    assert_eq!(statuses, vec![None]);
    assert_eq!(*log.lock().unwrap(), vec![10, 20, 30]);
}

#[test]
fn late_plugin_sees_only_commands_sent_while_attached() {
    let (first, first_log) = recorder(None, 0);
    let (second, second_log) = recorder(None, 0);
    let mut host = Host::new();
    host.attach(first);
    host.send(1);
    host.attach(second);
    host.send(2);
    host.send(3);
    let statuses = host.end();
    assert_eq!(statuses, vec![None, None]);
    assert_eq!(*first_log.lock().unwrap(), vec![1, 2, 3]);
    assert_eq!(*second_log.lock().unwrap(), vec![2, 3]);
}

#[test]
fn stopped_plugin_receives_nothing_further() {
    let (plugin, log) = recorder(Some(2), 7);
    let mut host = Host::new();
    host.attach(plugin);
    host.send(1);
    host.send(2);
    host.send(3);
    host.send(4);
    let statuses = host.end();
    assert_eq!(statuses, vec![Some(7)]);
    assert_eq!(*log.lock().unwrap(), vec![1, 2]);
}

#[test]
fn statuses_come_in_attach_order() {
    let (stopper, stopper_log) = recorder(Some(10), 1);
    let (keeper, keeper_log) = recorder(None, 0);
    let mut host = Host::new();
    host.attach(stopper);
    host.attach(keeper);
    host.send(10);
    let statuses = host.end();
    assert_eq!(statuses, vec![Some(1), None]);
    assert_eq!(*stopper_log.lock().unwrap(), vec![10]);
    assert_eq!(*keeper_log.lock().unwrap(), vec![10]);
}

#[test]
fn statuses_follow_attach_order_not_stop_order() {
    let (keeper, _) = recorder(None, 0);
    let (stopper, _) = recorder(Some(10), 9);
    let mut host = Host::new();
    host.attach(keeper);
    host.attach(stopper);
    host.send(10);
    host.send(11);
    let statuses = host.end();
    assert_eq!(statuses, vec![None, Some(9)]);
}

#[test]
fn failed_load_leaves_the_host_unchanged() {
    let (plugin, _) = recorder(None, 0);
    let mut host = Host::new();
    host.attach(plugin);
    assert_eq!(host.attached_count(), 1);
    let r = host.attach_constructed(Err(LoadError::ModuleNotLoaded));
    assert_eq!(r, Err(LoadError::ModuleNotLoaded));
    assert_eq!(host.attached_count(), 1);
    let r = host.attach_constructed(Err(LoadError::EntryPointMissing));
    assert_eq!(r, Err(LoadError::EntryPointMissing));
    assert_eq!(host.attached_count(), 1);
}

#[test]
fn declined_construction_attaches_nothing() {
    let mut host: Host<u64, Recorder> = Host::new();
    let r = host.attach_constructed(Ok(None));
    assert_eq!(r, Ok(false));
    assert_eq!(host.attached_count(), 0);
    host.send(1);
    let statuses = host.end();
    assert!(statuses.is_empty());
}

#[test]
fn constructed_plugin_is_attached_and_served() {
    let (plugin, log) = recorder(None, 0);
    let mut host = Host::new();
    let r = host.attach_constructed(Ok(Some(plugin)));
    assert_eq!(r, Ok(true));
    assert_eq!(host.attached_count(), 1);
    host.send(5);
    let statuses = host.end();
    assert_eq!(statuses, vec![None]);
    assert_eq!(*log.lock().unwrap(), vec![5]);
}

#[test]
fn attach_with_capacity_keeps_attach_order() {
    let (first, first_log) = recorder(None, 0);
    let (second, second_log) = recorder(None, 0);
    let mut host = Host::new();
    host.attach_with_capacity(first, 1);
    host.attach(second);
    assert_eq!(host.attached_count(), 2);
    host.send(3);
    let statuses = host.end();
    assert_eq!(statuses, vec![None, None]);
    assert_eq!(*first_log.lock().unwrap(), vec![3]);
    assert_eq!(*second_log.lock().unwrap(), vec![3]);
}

#[test]
fn worker_drains_its_closed_queue_in_order() {
    let (plugin, log) = recorder(None, 0);
    let mut worker = Worker::new(plugin, 4);
    let mut queue: BoundedQueue<Message<u64>> = BoundedQueue::new(4);
    assert!(queue.try_send(Message::new(1)).is_none());
    assert!(queue.try_send(Message::new(2)).is_none());
    assert!(queue.try_send(Message::new(3)).is_none());
    worker.drain(&mut queue);
    assert_eq!(queue.len(), 0);
    assert_eq!(worker.status_code(), None);
    assert_eq!(*log.lock().unwrap(), vec![1, 2, 3]);
}

#[test]
fn draining_worker_keeps_later_messages_from_a_stopped_plugin() {
    let (plugin, log) = recorder(Some(2), 3);
    let mut worker = Worker::new(plugin, 4);
    let mut queue: BoundedQueue<Message<u64>> = BoundedQueue::new(4);
    assert!(queue.try_send(Message::new(1)).is_none());
    assert!(queue.try_send(Message::new(2)).is_none());
    assert!(queue.try_send(Message::new(3)).is_none());
    worker.drain(&mut queue);
    assert_eq!(queue.len(), 0);
    assert_eq!(worker.status_code(), Some(3));
    assert_eq!(*log.lock().unwrap(), vec![1, 2]);
}

#[test]
fn delivering_to_a_stopped_worker_changes_nothing() {
    let (plugin, log) = recorder(Some(1), 4);
    let mut worker = Worker::new(plugin, 4);
    worker.deliver(Message::new(1));
    assert_eq!(worker.status_code(), Some(4));
    worker.deliver(Message::new(2));
    assert_eq!(worker.status_code(), Some(4));
    assert_eq!(*log.lock().unwrap(), vec![1]);
}

#[test]
fn draining_an_empty_queue_changes_nothing() {
    let (plugin, log) = recorder(None, 0);
    let mut worker = Worker::new(plugin, 4);
    let mut queue: BoundedQueue<Message<u64>> = BoundedQueue::new(4);
    worker.drain(&mut queue);
    assert_eq!(queue.len(), 0);
    assert_eq!(worker.status_code(), None);
    assert!(log.lock().unwrap().is_empty());
}
