use autogen_rust::agent_runtime::ActorContext;
use autogen_rust::agent_runtime::AgentId;
use autogen_rust::agent_runtime::RouterCommand;
use autogen_rust::agent_runtime::agent::AgentAction;
use autogen_rust::agent_runtime::agent::AgentActor;
use autogen_rust::agent_runtime::agent::AgentActorError;
use autogen_rust::agent_runtime::agent::AgentState;
use autogen_rust::agent_runtime::agent::ProcessingState;
use autogen_rust::agent_runtime::agent_id_text;
use autogen_rust::agent_runtime::new_agent_id;
use autogen_rust::agent_runtime::router::Delivery;
use autogen_rust::agent_runtime::router::RouterAction;
use autogen_rust::agent_runtime::router::RouterActor;
use autogen_rust::agent_runtime::router::RouterError;
use autogen_rust::agent_runtime::router::RouterState;
use autogen_rust::agent_runtime::router::RouterStatus;
use autogen_rust::agent_runtime::router::spawn_response;
use autogen_rust::immutable_agent::CompletionError;
use autogen_rust::immutable_agent::LlmAgent;
use autogen_rust::immutable_agent::Message;
use autogen_rust::json::parse_json;
use autogen_rust::llama::ChatInnerError;
use autogen_rust::llama::CompletionUsage;
use autogen_rust::llama::Content;
use autogen_rust::llama::LlamaResponseMessage;
use autogen_rust::llama::Role;

type Formatter = fn(&str, &str) -> String;

fn ready_router() -> RouterState {
    let mut router = RouterActor.pre_start();
    router.set_status(RouterStatus::Ready);
    router
}

fn spawn(router: &mut RouterState, id: AgentId, topic: &str) -> AgentId {
    router.complete_spawn(id, topic.to_string(), Ok(())).unwrap()
}

fn text(s: &str) -> Message {
    Message::new(Content::Text(s.to_string()), None, Role::User)
}

fn recipients(deliveries: &Vec<Delivery>) -> Vec<AgentId> {
    deliveries.iter().map(|d| d.recipient).collect()
}

#[test]
fn router_starts_off_and_empty() {
    let router = RouterState::new();
    assert!(!router.is_ready());
    let router = RouterState::default();
    assert!(!router.is_ready());
    let router = RouterActor::default().pre_start();
    assert!(!router.is_ready());
    assert_eq!(RouterStatus::default(), RouterStatus::Off);
}

#[test]
fn message_goes_to_every_subscriber_but_the_sender() {
    let mut router = ready_router();
    for id in [1, 2, 3, 4] {
        spawn(&mut router, id, "chat");
    }
    for sender in [1u128, 2, 3, 4] {
        let context = ActorContext::new().with_sender(sender).with_topic("chat".to_string());
        let deliveries = router.route_message("chat".to_string(), text("hello"), context).unwrap();
        let expected: Vec<AgentId> = [1u128, 2, 3, 4].into_iter().filter(|a| *a != sender).collect();
        assert_eq!(recipients(&deliveries), expected);
        for d in &deliveries {
            assert_eq!(d.topic, "chat");
            assert_eq!(d.message, text("hello"));
            assert_eq!(d.context.sender(), Some(sender));
            assert_eq!(d.context.topic_id(), &Some("chat".to_string()));
        }
    }
}

#[test]
fn message_without_sender_goes_to_every_subscriber() {
    let mut router = ready_router();
    spawn(&mut router, 7, "chat");
    spawn(&mut router, 8, "chat");
    let deliveries =
        router.route_message("chat".to_string(), text("x"), ActorContext::new()).unwrap();
    assert_eq!(recipients(&deliveries), vec![7, 8]);
}

#[test]
fn message_of_an_outside_sender_goes_to_every_subscriber() {
    let mut router = ready_router();
    spawn(&mut router, 7, "chat");
    let context = ActorContext::new().with_sender(99);
    let deliveries = router.route_message("chat".to_string(), text("x"), context).unwrap();
    assert_eq!(recipients(&deliveries), vec![7]);
}

#[test]
fn only_subscriber_as_sender_gets_no_delivery() {
    let mut router = ready_router();
    spawn(&mut router, 7, "chat");
    let context = ActorContext::new().with_sender(7);
    let deliveries = router.route_message("chat".to_string(), text("x"), context).unwrap();
    assert!(deliveries.is_empty());
}

#[test]
fn unknown_or_empty_topic_is_not_found() {
    let mut router = ready_router();
    spawn(&mut router, 7, "chat");
    assert_eq!(
        router.route_message("news".to_string(), text("x"), ActorContext::new()).map(|d| d.len()),
        Err(RouterError::TopicNotFound("news".to_string()))
    );
    router.unsubscribe_agent(7, &"chat".to_string()).unwrap();
    assert_eq!(
        router.route_message("chat".to_string(), text("x"), ActorContext::new()).map(|d| d.len()),
        Err(RouterError::TopicNotFound("chat".to_string()))
    );
    assert_eq!(router.get_topic_subscribers(&"chat".to_string()), Ok(vec![]));
    assert_eq!(
        router.get_topic_subscribers(&"news".to_string()),
        Err(RouterError::TopicNotFound("news".to_string()))
    );
}

#[test]
fn subscribe_then_unsubscribe_restores_the_tables() {
    let mut router = ready_router();
    spawn(&mut router, 1, "chat");
    spawn(&mut router, 2, "chat");
    spawn(&mut router, 3, "news");
    let subscribers_before = router.get_topic_subscribers(&"chat".to_string()).unwrap();
    let topics_before = router.get_agent_topics(&3).unwrap();
    assert_eq!(router.subscribe_agent(3, "chat".to_string()), Ok(()));
    assert_eq!(router.get_topic_subscribers(&"chat".to_string()), Ok(vec![1, 2, 3]));
    assert_eq!(router.get_agent_topics(&3), Ok(vec!["news".to_string(), "chat".to_string()]));
    assert_eq!(router.unsubscribe_agent(3, &"chat".to_string()), Ok(()));
    assert_eq!(router.get_topic_subscribers(&"chat".to_string()), Ok(subscribers_before));
    assert_eq!(router.get_agent_topics(&3), Ok(topics_before));
}

#[test]
fn subscribing_twice_keeps_one_subscription() {
    let mut router = ready_router();
    spawn(&mut router, 1, "chat");
    spawn(&mut router, 2, "chat");
    assert_eq!(router.subscribe_agent(1, "chat".to_string()), Ok(()));
    assert_eq!(router.get_topic_subscribers(&"chat".to_string()), Ok(vec![1, 2]));
    assert_eq!(router.get_agent_topics(&1), Ok(vec!["chat".to_string()]));
}

#[test]
fn unsubscribing_what_is_not_subscribed_changes_nothing() {
    let mut router = ready_router();
    spawn(&mut router, 1, "chat");
    assert_eq!(router.unsubscribe_agent(1, &"news".to_string()), Ok(()));
    assert_eq!(router.get_agent_topics(&1), Ok(vec!["chat".to_string()]));
    assert_eq!(router.get_topic_subscribers(&"chat".to_string()), Ok(vec![1]));
    assert_eq!(
        router.get_topic_subscribers(&"news".to_string()),
        Err(RouterError::TopicNotFound("news".to_string()))
    );
}

#[test]
fn subscription_commands_need_a_known_agent() {
    let mut router = ready_router();
    assert_eq!(router.subscribe_agent(5, "chat".to_string()), Err(RouterError::AgentNotFound(5)));
    assert_eq!(router.unsubscribe_agent(5, &"chat".to_string()), Err(RouterError::AgentNotFound(5)));
    assert_eq!(router.get_agent_topics(&5), Err(RouterError::AgentNotFound(5)));
}

#[test]
fn shutdown_purges_the_agent() {
    let mut router = ready_router();
    spawn(&mut router, 1, "chat");
    spawn(&mut router, 2, "chat");
    router.subscribe_agent(1, "news".to_string()).unwrap();
    router.subscribe_agent(2, "news".to_string()).unwrap();
    assert_eq!(router.shutdown_agent(1), Ok(()));
    assert_eq!(router.get_topic_subscribers(&"chat".to_string()), Ok(vec![2]));
    assert_eq!(router.get_topic_subscribers(&"news".to_string()), Ok(vec![2]));
    assert_eq!(router.get_agent_topics(&1), Err(RouterError::AgentNotFound(1)));
    assert_eq!(router.subscribe_agent(1, "chat".to_string()), Err(RouterError::AgentNotFound(1)));
    assert_eq!(router.shutdown_agent(1), Err(RouterError::AgentNotFound(1)));
    assert_eq!(router.get_agent_topics(&2), Ok(vec!["chat".to_string(), "news".to_string()]));
}

#[test]
fn shutdown_works_while_the_router_is_off() {
    let mut router = ready_router();
    spawn(&mut router, 1, "chat");
    router.set_status(RouterStatus::Off);
    assert_eq!(router.shutdown_agent(1), Ok(()));
    assert_eq!(router.shutdown_agent(1), Err(RouterError::AgentNotFound(1)));
}

#[test]
fn nothing_is_routed_while_the_router_is_off() {
    let mut router = ready_router();
    spawn(&mut router, 1, "chat");
    spawn(&mut router, 2, "chat");
    let actor = RouterActor;
    let off: RouterCommand<Formatter> = RouterCommand::Off;
    assert!(matches!(actor.handle(off, &mut router), Ok(RouterAction::Nothing)));
    assert!(!router.is_ready());
    let off: RouterCommand<Formatter> = RouterCommand::Off;
    assert!(matches!(actor.handle(off, &mut router), Ok(RouterAction::Nothing)));
    let route: RouterCommand<Formatter> = RouterCommand::RouteMessage {
        topic: "chat".to_string(),
        message: text("x"),
        context: ActorContext::new().with_sender(1),
    };
    assert!(matches!(actor.handle(route, &mut router), Err(RouterError::NotReady)));
    assert_eq!(router.subscribe_agent(1, "news".to_string()), Err(RouterError::NotReady));
    assert_eq!(router.unsubscribe_agent(1, &"chat".to_string()), Err(RouterError::NotReady));
    assert_eq!(router.get_agent_topics(&1), Err(RouterError::NotReady));
    assert_eq!(router.get_topic_subscribers(&"chat".to_string()), Err(RouterError::NotReady));
    assert_eq!(
        router.complete_spawn(9, "chat".to_string(), Ok(())),
        Err(RouterError::NotReady)
    );
    let ready: RouterCommand<Formatter> = RouterCommand::Ready;
    assert!(matches!(actor.handle(ready, &mut router), Ok(RouterAction::Nothing)));
    let ready: RouterCommand<Formatter> = RouterCommand::Ready;
    assert!(matches!(actor.handle(ready, &mut router), Ok(RouterAction::Nothing)));
    assert!(router.is_ready());
    assert_eq!(router.get_topic_subscribers(&"chat".to_string()), Ok(vec![1, 2]));
}

#[test]
fn spawn_is_planned_and_completed() {
    let mut router = ready_router();
    let actor = RouterActor;
    let command: RouterCommand<Formatter> = RouterCommand::SpawnAgent {
        system_prompt: "You're an AI assistant".to_string(),
        user_prompt_formatter: None,
        topic: "chat".to_string(),
        tools_map_meta: None,
        description: "assistant".to_string(),
    };
    let plan = match actor.handle(command, &mut router) {
        Ok(RouterAction::Link(plan)) => plan,
        _ => panic!("the spawn should be planned"),
    };
    assert_eq!(plan.topic, "chat");
    assert_eq!(plan.agent.system_prompt, "You're an AI assistant");
    assert_eq!(plan.agent.description, "assistant");
    assert!(plan.agent.tool_names().is_empty());
    assert_eq!(router.get_agent_topics(&plan.agent_id), Err(RouterError::AgentNotFound(plan.agent_id)));
    let id = plan.agent_id;
    assert_eq!(router.complete_spawn(id, plan.topic, Ok(())), Ok(id));
    assert_eq!(router.get_topic_subscribers(&"chat".to_string()), Ok(vec![id]));
    assert_eq!(router.get_agent_topics(&id), Ok(vec!["chat".to_string()]));
}

#[test]
fn spawned_agent_has_its_initial_state() {
    let mut router = ready_router();
    assert!(router.get_agent_state(&7).is_none());
    spawn(&mut router, 7, "chat");
    let state = router.get_agent_state(&7).unwrap();
    assert_eq!(state.processing_state(), ProcessingState::Ready);
    assert_eq!(state.get_context().sender(), Some(7));
    assert_eq!(state.get_context().topic_id(), &None);
    router.shutdown_agent(7).unwrap();
    assert!(router.get_agent_state(&7).is_none());
}

#[test]
fn failed_spawn_inserts_nothing() {
    let mut router = ready_router();
    assert_eq!(
        router.complete_spawn(4, "chat".to_string(), Err("no link".to_string())),
        Err(RouterError::SpawnFailed("no link".to_string()))
    );
    assert_eq!(router.get_agent_topics(&4), Err(RouterError::AgentNotFound(4)));
    assert_eq!(
        router.get_topic_subscribers(&"chat".to_string()),
        Err(RouterError::TopicNotFound("chat".to_string()))
    );
    spawn(&mut router, 4, "chat");
    assert!(matches!(
        router.complete_spawn(4, "news".to_string(), Ok(())),
        Err(RouterError::InvalidState(_))
    ));
    assert_eq!(router.get_agent_topics(&4), Ok(vec!["chat".to_string()]));
}

#[test]
fn spawn_is_refused_with_its_reason() {
    let mut router = RouterState::new();
    let plan = router.plan_spawn::<Formatter>(1, "p", None, "chat".to_string(), None, "d".to_string());
    assert!(matches!(plan, Err(RouterError::NotReady)));
    router.set_status(RouterStatus::Ready);
    let plan = router.plan_spawn::<Formatter>(1, "p", None, "chat".to_string(), None, "d".to_string());
    assert_eq!(plan.err(), Some(RouterError::InvalidState("Router reference missing".to_string())));
    router.set_router();
    let meta = parse_json("[{\"no_name\": 1}]").unwrap();
    let plan =
        router.plan_spawn::<Formatter>(1, "p", None, "chat".to_string(), Some(meta), "d".to_string());
    assert_eq!(plan.err(), Some(RouterError::AgentBuildFailed(1)));
    spawn(&mut router, 1, "chat");
    let plan = router.plan_spawn::<Formatter>(1, "p", None, "chat".to_string(), None, "d".to_string());
    assert!(matches!(plan, Err(RouterError::InvalidState(_))));
    let plan = router.plan_spawn::<Formatter>(2, "p", None, "chat".to_string(), None, "d".to_string());
    assert_eq!(plan.map(|p| p.agent_id).ok(), Some(2));
}

#[test]
fn spawn_answer_for_the_caller() {
    assert_eq!(spawn_response(&"chat".to_string(), &Ok(5)), Ok(5));
    assert_eq!(
        spawn_response(&"chat".to_string(), &Err(RouterError::NotReady)),
        Err("spawn agent on topic: chat failed".to_string())
    );
}

#[test]
fn router_commands_are_answered_with_their_actions() {
    let mut router = ready_router();
    let actor = RouterActor;
    spawn(&mut router, 1, "chat");
    spawn(&mut router, 2, "news");
    let subscribe: RouterCommand<Formatter> =
        RouterCommand::SubscribeAgent { agent_id: 2, topic: "chat".to_string() };
    assert!(matches!(actor.handle(subscribe, &mut router), Ok(RouterAction::Nothing)));
    let route: RouterCommand<Formatter> = RouterCommand::RouteMessage {
        topic: "chat".to_string(),
        message: text("x"),
        context: ActorContext::new().with_sender(1),
    };
    match actor.handle(route, &mut router) {
        Ok(RouterAction::Deliver(deliveries)) => assert_eq!(recipients(&deliveries), vec![2]),
        _ => panic!("the message should be delivered"),
    }
    let unsubscribe: RouterCommand<Formatter> =
        RouterCommand::UnsubscribeAgent { agent_id: 2, topic: "chat".to_string() };
    assert!(matches!(actor.handle(unsubscribe, &mut router), Ok(RouterAction::Nothing)));
    assert_eq!(router.get_topic_subscribers(&"chat".to_string()), Ok(vec![1]));
    let shutdown: RouterCommand<Formatter> = RouterCommand::ShutdownAgent { agent_id: 1 };
    assert!(matches!(actor.handle(shutdown, &mut router), Ok(RouterAction::Stop(1))));
    let shutdown: RouterCommand<Formatter> = RouterCommand::ShutdownAgent { agent_id: 1 };
    assert!(matches!(actor.handle(shutdown, &mut router), Err(RouterError::AgentNotFound(1))));
    let unknown: RouterCommand<Formatter> =
        RouterCommand::SubscribeAgent { agent_id: 1, topic: "chat".to_string() };
    assert!(matches!(actor.handle(unknown, &mut router), Err(RouterError::AgentNotFound(1))));
    assert!(matches!(RouterCommand::<Formatter>::default(), RouterCommand::Off));
}

#[test]
fn router_error_messages() {
    let id: AgentId = 0x0123456789abcdef0123456789abcdef;
    assert_eq!(agent_id_text(id), "01234567-89ab-cdef-0123-456789abcdef");
    assert_eq!(RouterError::NotReady.message(), "Router is not in ready state");
    assert_eq!(
        RouterError::AgentNotFound(id).message(),
        "Agent 01234567-89ab-cdef-0123-456789abcdef not found"
    );
    assert_eq!(
        RouterError::AgentBuildFailed(id).message(),
        "Agent 01234567-89ab-cdef-0123-456789abcdef build failed"
    );
    assert_eq!(RouterError::SpawnFailed("x".to_string()).message(), "Failed to spawn agent: x");
    assert_eq!(RouterError::TopicNotFound("chat".to_string()).message(), "Topic chat not found");
    assert_eq!(RouterError::InvalidState("x".to_string()).message(), "Invalid state: x");
}

#[test]
fn new_identity_is_a_random_uuid() {
    for _ in 0..64 {
        let id = new_agent_id();
        assert_eq!((id >> 76) & 0xf, 4);
        assert_eq!((id >> 62) & 0x3, 2);
        let text = agent_id_text(id);
        assert_eq!(text.as_bytes()[14], b'4');
        assert!(b"89ab".contains(&text.as_bytes()[19]));
    }
}

#[test]
fn new_identities_differ() {
    let a = new_agent_id();
    let b = new_agent_id();
    assert_ne!(a, b);
}

fn assistant(id: AgentId) -> AgentActor<Formatter> {
    let llm = LlmAgent::build("You're an AI assistant".to_string(), None, None, None, "assistant".to_string())
        .ok()
        .unwrap();
    AgentActor::new(id, llm)
}

#[test]
fn end_to_end_one_delivery_and_no_echo() {
    let actor = RouterActor;
    let mut router = actor.pre_start();
    let ready: RouterCommand<Formatter> = RouterCommand::Ready;
    actor.handle(ready, &mut router).unwrap();
    let command: RouterCommand<Formatter> = RouterCommand::SpawnAgent {
        system_prompt: "You're an AI assistant".to_string(),
        user_prompt_formatter: None,
        topic: "chat".to_string(),
        tools_map_meta: None,
        description: "assistant".to_string(),
    };
    let plan = match actor.handle(command, &mut router) {
        Ok(RouterAction::Link(plan)) => plan,
        _ => panic!("the spawn should be planned"),
    };
    let assistant_id = router.complete_spawn(plan.agent_id, plan.topic, Ok(())).unwrap();
    let worker = AgentActor::new(assistant_id, plan.agent);
    let mut state = worker.pre_start();
    let subscribed: RouterCommand<Formatter> =
        RouterCommand::SubscribeAgent { agent_id: assistant_id, topic: "chat".to_string() };
    worker.handle(subscribed, &mut state).unwrap();

    let caller = new_agent_id();
    let task: RouterCommand<Formatter> = RouterCommand::RouteMessage {
        topic: "chat".to_string(),
        message: text("calculate 1 + 2"),
        context: ActorContext::new().with_sender(caller).with_topic("chat".to_string()),
    };
    let deliveries = match actor.handle(task, &mut router) {
        Ok(RouterAction::Deliver(deliveries)) => deliveries,
        _ => panic!("the task should be delivered"),
    };
    assert_eq!(recipients(&deliveries), vec![assistant_id]);

    let delivery = deliveries.into_iter().next().unwrap();
    let action = worker
        .handle(
            RouterCommand::RouteMessage {
                topic: delivery.topic,
                message: delivery.message,
                context: delivery.context,
            },
            &mut state,
        )
        .unwrap();
    let (input, topic) = match action {
        AgentAction::Process { input, topic } => (input, topic),
        AgentAction::Nothing => panic!("the task should be processed"),
    };
    assert_eq!(input, "calculate 1 + 2");
    assert_eq!(topic, "chat");
    assert_eq!(state.processing_state(), ProcessingState::Processing);

    let reply = LlamaResponseMessage {
        content: Content::Text("3".to_string()),
        role: Role::Assistant,
        usage: CompletionUsage::zero(),
    };
    let published = worker.publish(topic, Ok(reply), &mut state);
    assert_eq!(state.processing_state(), ProcessingState::Ready);
    let (topic, message, context) = match published {
        RouterCommand::RouteMessage { topic, message, context } => (topic, message, context),
        _ => panic!("the reply should be a routed message"),
    };
    assert_eq!(topic, "chat");
    assert_eq!(message, Message::new(Content::Text("3".to_string()), None, Role::Assistant));
    assert_eq!(context.sender(), Some(assistant_id));
    assert_eq!(context.topic_id(), &Some("chat".to_string()));

    let echoed: RouterCommand<Formatter> = RouterCommand::RouteMessage {
        topic: topic.clone(),
        message: message.clone(),
        context: context.clone(),
    };
    match actor.handle(echoed, &mut router) {
        Ok(RouterAction::Deliver(deliveries)) => assert!(deliveries.is_empty()),
        _ => panic!("the reply should be routed"),
    }
    let own: RouterCommand<Formatter> = RouterCommand::RouteMessage { topic, message, context };
    assert_eq!(worker.handle(own, &mut state), Ok(AgentAction::Nothing));
    assert_eq!(state.processing_state(), ProcessingState::Ready);
}

#[test]
fn worker_publishes_an_error_as_text_and_is_ready_again() {
    let worker = assistant(1);
    let mut state = worker.pre_start();
    let task: RouterCommand<Formatter> = RouterCommand::RouteMessage {
        topic: "chat".to_string(),
        message: text("task"),
        context: ActorContext::new().with_sender(2),
    };
    assert!(matches!(worker.handle(task, &mut state), Ok(AgentAction::Process { .. })));
    let failure = CompletionError::Chat(ChatInnerError::EmptyChoices);
    let published = worker.publish("chat".to_string(), Err(failure), &mut state);
    assert_eq!(state.processing_state(), ProcessingState::Ready);
    match published {
        RouterCommand::RouteMessage { message, context, .. } => {
            assert_eq!(
                message,
                Message::new(Content::Text("Empty choices in response".to_string()), None, Role::Assistant)
            );
            assert_eq!(context.sender(), Some(1));
        },
        _ => panic!("the error should be a routed message"),
    }
}

#[test]
fn reply_is_signed_with_the_workers_own_identity() {
    let worker = assistant(1);
    let mut state = AgentState::new(9);
    state.add_topic("chat".to_string());
    let reply = LlamaResponseMessage {
        content: Content::Text("done".to_string()),
        role: Role::Assistant,
        usage: CompletionUsage::zero(),
    };
    match worker.publish("chat".to_string(), Ok(reply), &mut state) {
        RouterCommand::RouteMessage { context, .. } => {
            assert_eq!(context.sender(), Some(1));
            assert_eq!(context.topic_id(), &Some("chat".to_string()));
        },
        _ => panic!("the reply should be a routed message"),
    }
}

#[test]
fn busy_or_stopped_worker_takes_no_task() {
    let worker = assistant(1);
    let mut state = worker.pre_start();
    let task = || -> RouterCommand<Formatter> {
        RouterCommand::RouteMessage {
            topic: "chat".to_string(),
            message: text("task"),
            context: ActorContext::new().with_sender(2),
        }
    };
    assert!(matches!(worker.handle(task(), &mut state), Ok(AgentAction::Process { .. })));
    assert_eq!(worker.handle(task(), &mut state), Ok(AgentAction::Nothing));
    assert_eq!(state.processing_state(), ProcessingState::Processing);
    let shutdown: RouterCommand<Formatter> = RouterCommand::ShutdownAgent { agent_id: 1 };
    assert_eq!(worker.handle(shutdown, &mut state), Ok(AgentAction::Nothing));
    assert_eq!(state.processing_state(), ProcessingState::Off);
    assert_eq!(worker.handle(task(), &mut state), Ok(AgentAction::Nothing));
    let again: RouterCommand<Formatter> = RouterCommand::ShutdownAgent { agent_id: 1 };
    assert_eq!(
        worker.handle(again, &mut state),
        Err(AgentActorError::ShutdownFailure(agent_id_text(1)))
    );
    let ready: RouterCommand<Formatter> = RouterCommand::Ready;
    assert_eq!(worker.handle(ready, &mut state), Ok(AgentAction::Nothing));
    assert_eq!(state.processing_state(), ProcessingState::Off);
    let reply = LlamaResponseMessage {
        content: Content::Text("late".to_string()),
        role: Role::Assistant,
        usage: CompletionUsage::zero(),
    };
    worker.publish("chat".to_string(), Ok(reply), &mut state);
    assert_eq!(state.processing_state(), ProcessingState::Off);
}

#[test]
fn shutdown_for_another_agent_fails() {
    let worker = assistant(1);
    let mut state = worker.pre_start();
    let other: RouterCommand<Formatter> = RouterCommand::ShutdownAgent { agent_id: 2 };
    assert_eq!(
        worker.handle(other, &mut state),
        Err(AgentActorError::ShutdownFailure(agent_id_text(2)))
    );
    assert_eq!(state.processing_state(), ProcessingState::Ready);
    let off: RouterCommand<Formatter> = RouterCommand::Off;
    assert_eq!(worker.handle(off, &mut state), Ok(AgentAction::Nothing));
    assert_eq!(state.processing_state(), ProcessingState::Off);
    assert_eq!(
        AgentActorError::ShutdownFailure("x".to_string()).message(),
        "Shutdown failed: x"
    );
    assert_eq!(
        AgentActorError::LlmProcessing("x".to_string()).message(),
        "LLM processing error: x"
    );
    assert_eq!(
        AgentActorError::RouterCommunication("x".to_string()).message(),
        "Router communication failure: x"
    );
}

#[test]
fn agent_state_keeps_its_topics() {
    let mut state = AgentState::new(5);
    assert_eq!(state.get_context().sender(), Some(5));
    assert_eq!(state.get_context().topic_id(), &None);
    state.add_topic("a".to_string());
    state.add_topic("b".to_string());
    assert_eq!(state.get_context().topic_id(), &Some("b".to_string()));
    state.remove_topic(&"a".to_string());
    assert_eq!(state.get_context().topic_id(), &Some("b".to_string()));
    state.add_topic("c".to_string());
    state.remove_topic(&"c".to_string());
    assert_eq!(state.get_context().topic_id(), &Some("b".to_string()));
    state.remove_topic(&"b".to_string());
    assert_eq!(state.get_context().topic_id(), &Some(String::new()));
}
