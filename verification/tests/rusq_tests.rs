use build_it_agent::rusq::{Message, MetricsSnapshot, MpmcQueue, Priority, RusqConfig, RusqError,
    RusqMetrics};

#[test]
fn test_message_creation() {
    let msg = Message::new("test payload".to_string(), "test_topic".to_string());

    assert_eq!(msg.payload, "test payload");
    assert_eq!(msg.topic, "test_topic");
    assert_eq!(msg.priority, Priority::Normal);
    assert_eq!(msg.retry_count, 0);
}

#[test]
fn test_message_with_priority() {
    let msg = Message::new("test".to_string(), "topic".to_string())
        .with_priority(Priority::High);

    assert_eq!(msg.priority, Priority::High);
}

#[test]
fn test_priority_ordering_enum() {
    assert!(Priority::Critical > Priority::High);
    assert!(Priority::High > Priority::Normal);
    assert!(Priority::Normal > Priority::Low);
}

#[test]
fn test_rusq_config_default() {
    let config = RusqConfig::default();

    assert_eq!(config.capacity, Some(10000));
    assert!(config.enable_priority);
    assert_eq!(config.max_retries, 3);
    assert_eq!(config.consumer_timeout_ms, 1000);
    assert!(config.enable_metrics);
}

#[test]
fn test_queue_shutdown() {
    let config = RusqConfig::default();
    let mut queue: MpmcQueue<String> = MpmcQueue::new(config);

    assert!(!queue.is_shutdown());
    queue.shutdown();
    assert!(queue.is_shutdown());
}

#[test]
fn test_send_after_shutdown() {
    let config = RusqConfig::default();
    let mut queue: MpmcQueue<String> = MpmcQueue::new(config);

    queue.shutdown();

    let result = queue.send("test".to_string(), "topic".to_string());
    assert!(matches!(result, Err(RusqError::QueueShutdown)));
}

#[test]
fn test_error_display() {
    assert_eq!(RusqError::QueueFull.message(), "Queue is full");
    assert_eq!(RusqError::QueueShutdown.message(), "Queue is shutdown");
    assert_eq!(RusqError::Empty.message(), "Queue is empty");
    assert_eq!(RusqError::Timeout.message(), "Operation timed out");
    assert_eq!(RusqError::RetryRequired.message(), "Message retry required");
}

#[test]
fn test_metrics_snapshot() {
    let mut metrics = RusqMetrics::new();

    metrics.increment_sent();
    metrics.increment_sent();
    metrics.increment_received();
    metrics.add_producer();

    let snapshot: MetricsSnapshot = metrics.snapshot();
    assert_eq!(snapshot.messages_sent, 2);
    assert_eq!(snapshot.messages_received, 1);
    assert_eq!(snapshot.active_producers, 1);
}

#[test]
fn test_generate_unique_message_ids() {
    let mut queue: MpmcQueue<String> = MpmcQueue::new(RusqConfig::default());

    let id1 = queue.generate_message_id();
    let id2 = queue.generate_message_id();
    let id3 = queue.generate_message_id();

    assert_ne!(id1, id2);
    assert_ne!(id2, id3);
    assert_ne!(id1, id3);
}

#[test]
fn rusq_test_basic_send_receive() {
    let config = RusqConfig::default();
    let mut queue: MpmcQueue<String> = MpmcQueue::new(config);

    queue.send("Hello, World!".to_string(), "test".to_string()).unwrap();

    let message = queue.try_recv().unwrap();
    assert_eq!(message.payload, "Hello, World!");
    assert_eq!(message.topic, "test");
}

#[test]
fn rusq_test_priority_ordering() {
    let config = RusqConfig::default();
    let mut queue: MpmcQueue<String> = MpmcQueue::new(config);

    queue.send_with_priority("Low".to_string(), "test".to_string(), Priority::Low).unwrap();
    queue.send_with_priority("High".to_string(), "test".to_string(), Priority::High).unwrap();
    queue.send_with_priority("Normal".to_string(), "test".to_string(), Priority::Normal).unwrap();
    queue
        .send_with_priority("Critical".to_string(), "test".to_string(), Priority::Critical)
        .unwrap();

    assert_eq!(queue.try_recv().unwrap().payload, "Critical");
    assert_eq!(queue.try_recv().unwrap().payload, "High");
    assert_eq!(queue.try_recv().unwrap().payload, "Normal");
    assert_eq!(queue.try_recv().unwrap().payload, "Low");
}

#[test]
fn shutdown_keeps_queued_messages_drainable() {
    let config = RusqConfig::default();
    let mut queue: MpmcQueue<String> = MpmcQueue::new(config);

    queue.send_with_priority("early".to_string(), "t".to_string(), Priority::Low).unwrap();
    queue.send_with_priority("urgent".to_string(), "t".to_string(), Priority::Critical).unwrap();

    queue.shutdown();

    assert!(matches!(queue.send("late".to_string(), "t".to_string()),
        Err(RusqError::QueueShutdown)));
    assert_eq!(queue.try_recv().unwrap().payload, "urgent");
    assert_eq!(queue.try_recv().unwrap().payload, "early");
    assert!(matches!(queue.try_recv(), Err(RusqError::QueueShutdown)));
}

#[test]
fn rusq_test_metrics() {
    let config = RusqConfig::default();
    let mut queue: MpmcQueue<String> = MpmcQueue::new(config);

    for i in 0..5 {
        queue.send(format!("Message {}", i), "test".to_string()).unwrap();
    }

    for _ in 0..3 {
        queue.try_recv().unwrap();
    }

    let metrics = queue.metrics();
    assert_eq!(metrics.messages_sent, 5);
    assert_eq!(metrics.messages_received, 3);
}
