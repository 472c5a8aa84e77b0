use investment_management::nlp::conversation_manager::{
    ConversationError, ConversationGoal, ConversationGoalType, ConversationManager, ConversationState,
    ConversationTurn, GoalStatus,
};

#[test]
fn test_conversation_turn() {
    let turn = ConversationTurn::new("How is my portfolio doing?".to_string());
    assert_eq!(turn.query, "How is my portfolio doing?");
    assert!(turn.processed_query.is_none());
    assert!(turn.response.is_none());
}

#[test]
fn test_conversation_goal() {
    let mut goal = ConversationGoal::new(ConversationGoalType::PortfolioReview);
    assert_eq!(goal.status, GoalStatus::NotStarted);

    goal.add_required_information("risk_tolerance", true);
    goal.add_required_information("time_horizon", true);

    goal.start();
    assert_eq!(goal.status, GoalStatus::InProgress);

    goal.set_information_collected("risk_tolerance", "Moderate".to_string()).unwrap();
    assert_eq!(goal.status, GoalStatus::InProgress);

    goal.set_information_collected("time_horizon", "Long".to_string()).unwrap();
    assert_eq!(goal.status, GoalStatus::Completed);
}

#[test]
fn test_conversation_manager() {
    let mut manager = ConversationManager::new("client123");
    assert_eq!(manager.get_state(), &ConversationState::Greeting);

    manager.add_user_query("Hello, I'd like to review my portfolio");
    assert_eq!(manager.get_history().len(), 1);

    manager.set_state(ConversationState::InformationGathering);
    assert_eq!(manager.get_state(), &ConversationState::InformationGathering);

    let goal = manager.add_goal(ConversationGoalType::PortfolioReview);
    assert_eq!(goal.goal_type, ConversationGoalType::PortfolioReview);

    let goal_id = goal.id.clone();
    let goal = manager.get_goal_by_id_mut(&goal_id).unwrap();
    goal.start();
    assert_eq!(goal.status, GoalStatus::InProgress);
}

#[test]
fn collecting_unknown_information_is_an_error() {
    let mut goal = ConversationGoal::new(ConversationGoalType::GoalPlanning);
    goal.add_required_information("age", true);
    assert_eq!(
        goal.set_information_collected("income", "100".to_string()),
        Err(ConversationError::InformationNotFound)
    );
    assert_eq!(goal.status, GoalStatus::NotStarted);
}

#[test]
fn optional_information_does_not_block_completion() {
    let mut goal = ConversationGoal::new(ConversationGoalType::RiskAssessment);
    goal.add_required_information("bracket", true);
    goal.add_required_information("state", false);
    goal.start();
    goal.set_information_collected("bracket", "24%".to_string()).unwrap();
    assert_eq!(goal.status, GoalStatus::Completed);
}

#[test]
fn goal_abandon_and_complete() {
    let mut goal = ConversationGoal::new(ConversationGoalType::FinancialEducation);
    goal.abandon();
    assert_eq!(goal.status, GoalStatus::Abandoned);
    goal.complete();
    assert_eq!(goal.status, GoalStatus::Completed);
}

#[test]
fn history_keeps_the_ten_latest_turns() {
    let mut manager = ConversationManager::new("c");
    for i in 0..12 {
        manager.add_user_query(&format!("query {}", i));
    }
    assert_eq!(manager.get_history().len(), 10);
    assert_eq!(manager.get_history()[0].query, "query 2");
    assert_eq!(manager.get_most_recent_query(), Some("query 11"));
}

#[test]
fn updating_without_turns_fails() {
    let mut manager = ConversationManager::new("c");
    assert!(manager.get_most_recent_query().is_none());
    assert!(manager.get_most_recent_response().is_none());
    assert!(manager.get_most_recent_intent().is_none());
    assert!(manager.get_all_entities().is_empty());
    assert!(manager.get_active_goals().is_empty());
}

#[test]
fn goal_lookup_by_unknown_id() {
    let mut manager = ConversationManager::new("c");
    manager.add_goal(ConversationGoalType::ProblemResolution);
    assert!(manager.get_goal_by_id("missing").is_none());
    assert_eq!(manager.get_active_goals().len(), 1);
}

#[test]
fn state_names() {
    assert_eq!(ConversationState::Greeting.name(), "Greeting");
    assert_eq!(GoalStatus::InProgress.name(), "InProgress");
    assert_eq!(ConversationGoalType::PortfolioReview.name(), "PortfolioReview");
}
