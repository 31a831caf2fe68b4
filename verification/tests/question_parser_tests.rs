use brainwires_cli::question_parser::{
    extract_question_block, finish_parse, format_answers_natural, format_declined_message,
    truncate_question, validate_ambiguity_analysis, validate_question_block, AmbiguityAnalysis,
    AmbiguityType, ClarifyingQuestion, QuestionAnswerState, QuestionBlock, QuestionOption,
};

fn option(id: &str, label: &str) -> QuestionOption {
    QuestionOption { id: id.to_string(), label: label.to_string(), description: None }
}

fn question(q: &str, header: &str, multi: bool, options: Vec<QuestionOption>) -> ClarifyingQuestion {
    ClarifyingQuestion {
        id: "q1".to_string(),
        question: q.to_string(),
        header: header.to_string(),
        multi_select: multi,
        ambiguity_type: None,
        options,
    }
}

#[test]
fn test_validate_question_block() {
    let valid = QuestionBlock {
        ambiguity_analysis: None,
        questions: vec![question("Test?", "Test", false, vec![option("a", "Option A"), option("b", "Option B")])],
    };
    assert!(validate_question_block(&valid));
    let too_many = QuestionBlock {
        ambiguity_analysis: None,
        questions: vec![
            valid.questions[0].clone(),
            valid.questions[0].clone(),
            valid.questions[0].clone(),
            valid.questions[0].clone(),
            valid.questions[0].clone(),
        ],
    };
    assert!(!validate_question_block(&too_many));
    let long_header = QuestionBlock {
        ambiguity_analysis: None,
        questions: vec![question(
            "Test?",
            "This header is way too long",
            false,
            vec![option("a", "A"), option("b", "B")],
        )],
    };
    assert!(!validate_question_block(&long_header));
}

#[test]
fn test_validate_ambiguity_analysis() {
    let valid = AmbiguityAnalysis {
        predicted_types: vec![AmbiguityType::Semantic],
        reasoning: "Valid reasoning here".to_string(),
    };
    assert!(validate_ambiguity_analysis(&valid));
    let empty_types = AmbiguityAnalysis { predicted_types: vec![], reasoning: "Valid reasoning".to_string() };
    assert!(!validate_ambiguity_analysis(&empty_types));
    let empty_reasoning = AmbiguityAnalysis {
        predicted_types: vec![AmbiguityType::Specify],
        reasoning: "".to_string(),
    };
    assert!(!validate_ambiguity_analysis(&empty_reasoning));
}

#[test]
fn test_format_answers_single_select() {
    let questions = QuestionBlock {
        ambiguity_analysis: None,
        questions: vec![question(
            "Which auth method?",
            "Auth",
            false,
            vec![option("a", "JWT tokens"), option("b", "Sessions")],
        )],
    };
    let mut state = QuestionAnswerState::new(&questions);
    state.selected_options[0][0] = true;
    let formatted = format_answers_natural(&questions, &state);
    assert!(formatted.contains("JWT tokens"));
    assert!(formatted.contains("Which auth method?"));
    assert_eq!(formatted, "For \"Which auth method?\": JWT tokens");
}

#[test]
fn test_format_answers_multi_select() {
    let questions = QuestionBlock {
        ambiguity_analysis: None,
        questions: vec![question(
            "Which features?",
            "Features",
            true,
            vec![option("a", "Logging"), option("b", "Caching")],
        )],
    };
    let mut state = QuestionAnswerState::new(&questions);
    state.selected_options[0][0] = true;
    state.selected_options[0][1] = true;
    let formatted = format_answers_natural(&questions, &state);
    assert!(formatted.contains("Logging"));
    assert!(formatted.contains("Caching"));
    assert!(formatted.contains(" and "));
}

#[test]
fn test_format_answers_with_other() {
    let questions = QuestionBlock {
        ambiguity_analysis: None,
        questions: vec![question("Which auth method?", "Auth", false, vec![option("a", "JWT")])],
    };
    let mut state = QuestionAnswerState::new(&questions);
    state.other_selected[0] = true;
    state.other_text[0] = "Custom OAuth2 implementation".to_string();
    let formatted = format_answers_natural(&questions, &state);
    assert!(formatted.contains("Custom OAuth2 implementation"));
}

#[test]
fn nothing_answered_asks_for_defaults() {
    let questions = QuestionBlock {
        ambiguity_analysis: None,
        questions: vec![question("Which?", "Q", false, vec![option("a", "A"), option("b", "B")])],
    };
    let state = QuestionAnswerState::new(&questions);
    assert_eq!(
        format_answers_natural(&questions, &state),
        "I'd like to proceed with your default recommendations."
    );
    assert_eq!(
        format_declined_message(),
        "I'd prefer to skip these questions and have you proceed with your best judgment."
    );
}

#[test]
fn long_questions_are_cut() {
    let long = "This question is definitely longer than fifty bytes in total";
    assert_eq!(truncate_question(long), "This question is definitely longer than fifty b");
    assert_eq!(truncate_question("short?"), "short?");
}

#[test]
fn test_parse_response_with_questions() {
    let response = "Here's my analysis of the problem.\n\n<clarifying_questions>\n{\"questions\": []}\n</clarifying_questions>";
    let block = extract_question_block(response).unwrap();
    assert_eq!(block.json, "{\"questions\": []}");
    assert_eq!(block.remainder, "Here's my analysis of the problem.");
    let decoded = QuestionBlock {
        ambiguity_analysis: None,
        questions: vec![question("Which auth method?", "Auth", false, vec![option("a", "JWT tokens"), option("b", "Sessions")])],
    };
    let result = finish_parse(response, Some(block), Some(decoded));
    assert!(result.questions.is_some());
    assert_eq!(result.content, "Here's my analysis of the problem.");
    assert_eq!(result.questions.unwrap().questions[0].id, "q1");
}

#[test]
fn test_parse_response_without_questions() {
    let response = "Just a regular response without questions.";
    let block = extract_question_block(response);
    assert!(block.is_none());
    let result = finish_parse(response, block, None);
    assert!(result.questions.is_none());
    assert_eq!(result.content, response);
}

#[test]
fn test_parse_invalid_json() {
    let response = "Some text\n<clarifying_questions>\n{ invalid json }\n</clarifying_questions>";
    let block = extract_question_block(response).unwrap();
    assert_eq!(block.json, "{ invalid json }");
    let result = finish_parse(response, Some(block), None);
    assert!(result.questions.is_none());
    assert_eq!(result.content, response);
}

#[test]
fn invalid_block_keeps_response() {
    let response = "a<clarifying_questions>{}</clarifying_questions>b";
    let block = extract_question_block(response).unwrap();
    assert_eq!(block.remainder, "ab");
    let bad = QuestionBlock { ambiguity_analysis: None, questions: vec![] };
    let result = finish_parse(response, Some(block), Some(bad));
    assert!(result.questions.is_none());
    assert_eq!(result.content, response);
    assert!(extract_question_block("<clarifying_questions> no end").is_none());
}

#[test]
fn test_parse_at_cot_metadata() {
    let response = "Here's my analysis.\n\n<clarifying_questions>\n{\"ambiguity_analysis\": {\"predicted_types\": [\"semantic\", \"specify\"], \"reasoning\": \"Query has unclear term 'cache' and broad goal 'optimize'\"}, \"questions\": []}\n</clarifying_questions>";
    let block = extract_question_block(response).unwrap();
    assert_eq!(block.remainder, "Here's my analysis.");
    assert!(block.json.starts_with("{\"ambiguity_analysis\""));
    let mut q = question("Which cache type?", "Cache", false, vec![
        QuestionOption { id: "a".to_string(), label: "LRU".to_string(), description: Some("Least Recently Used".to_string()) },
        QuestionOption { id: "b".to_string(), label: "LFU".to_string(), description: Some("Least Frequently Used".to_string()) },
    ]);
    q.ambiguity_type = Some(AmbiguityType::Semantic);
    let decoded = QuestionBlock {
        ambiguity_analysis: Some(AmbiguityAnalysis {
            predicted_types: vec![AmbiguityType::Semantic, AmbiguityType::Specify],
            reasoning: "Query has unclear term 'cache' and broad goal 'optimize'".to_string(),
        }),
        questions: vec![q],
    };
    let result = finish_parse(response, Some(block), Some(decoded));
    assert!(result.questions.is_some());
    let block = result.questions.unwrap();
    assert!(block.ambiguity_analysis.is_some());
    let analysis = block.ambiguity_analysis.unwrap();
    assert_eq!(analysis.predicted_types.len(), 2);
    assert!(analysis.predicted_types.contains(&AmbiguityType::Semantic));
    assert!(analysis.predicted_types.contains(&AmbiguityType::Specify));
    assert!(analysis.reasoning.contains("cache"));
    assert_eq!(block.questions.len(), 1);
    assert_eq!(block.questions[0].ambiguity_type, Some(AmbiguityType::Semantic));
}

#[test]
fn test_backward_compatible_without_at_cot() {
    let response = "Analysis.\n\n<clarifying_questions>\n{\"questions\": []}\n</clarifying_questions>";
    let block = extract_question_block(response).unwrap();
    let decoded = QuestionBlock {
        ambiguity_analysis: None,
        questions: vec![question("Which option?", "Option", false, vec![option("a", "Option A"), option("b", "Option B")])],
    };
    let result = finish_parse(response, Some(block), Some(decoded));
    assert!(result.questions.is_some());
    let block = result.questions.unwrap();
    assert!(block.ambiguity_analysis.is_none());
    assert_eq!(block.questions.len(), 1);
    assert!(block.questions[0].ambiguity_type.is_none());
}
