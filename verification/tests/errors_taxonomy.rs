//! The error taxonomy: messages, severity, recoverability and the
//! recovery strategies.

use gt::errors::{ErrorHandler, ErrorSeverity, GtError, RecoveryStrategy};
use gt::ui::Color;

#[test]
fn messages_carry_their_context() {
    assert_eq!(
        GtError::BranchNotFound { branch: "feature/x".to_string() }.message(),
        "branch 'feature/x' not found"
    );
    assert_eq!(
        GtError::BranchAlreadyExists { branch: "dev".to_string() }.message(),
        "branch 'dev' already exists"
    );
    assert_eq!(
        GtError::NetworkTimeout { attempts: 50 }.message(),
        "network failure after 50 attempts"
    );
    assert_eq!(
        GtError::NotImplemented { feature: "clean command".to_string() }.message(),
        "not implemented: clean command"
    );
    assert_eq!(GtError::EmptyCommitMessage.message(), "the commit message is empty");
}

#[test]
fn severity_follows_the_taxonomy() {
    assert_eq!(GtError::UserCancelled.severity(), ErrorSeverity::Info);
    assert_eq!(GtError::UncommittedChanges.severity(), ErrorSeverity::Warning);
    assert_eq!(
        GtError::NetworkTimeout { attempts: 3 }.severity(),
        ErrorSeverity::Error
    );
    assert_eq!(
        GtError::GitOperation { message: "x".to_string() }.severity(),
        ErrorSeverity::Critical
    );
    assert_eq!(GtError::NotInGitRepo.severity(), ErrorSeverity::Error);
}

#[test]
fn severity_presentation_is_fixed() {
    assert_eq!(ErrorSeverity::Info.color(), Color::Blue);
    assert_eq!(ErrorSeverity::Warning.color(), Color::Yellow);
    assert_eq!(ErrorSeverity::Error.color(), Color::Red);
    assert_eq!(ErrorSeverity::Critical.color(), Color::Purple);
    assert_eq!(ErrorSeverity::Warning.icon(), "(!)");
}

#[test]
fn recoverability_and_confirmation() {
    assert!(GtError::UncommittedChanges.is_recoverable());
    assert!(GtError::NetworkTimeout { attempts: 1 }.is_recoverable());
    assert!(!GtError::NotInGitRepo.is_recoverable());
    assert!(GtError::DirtyWorkingDirectory.requires_confirmation());
    assert!(!GtError::UserCancelled.requires_confirmation());
}

#[test]
fn recovery_strategies_follow_the_error() {
    assert_eq!(
        RecoveryStrategy::for_error(&GtError::UncommittedChanges),
        RecoveryStrategy::Prompt
    );
    assert_eq!(
        RecoveryStrategy::for_error(&GtError::NetworkTimeout { attempts: 2 }),
        RecoveryStrategy::AutoRetry
    );
    assert_eq!(
        RecoveryStrategy::for_error(&GtError::UserCancelled),
        RecoveryStrategy::Abort
    );
    assert_eq!(
        RecoveryStrategy::for_error(&GtError::NotInGitRepo),
        RecoveryStrategy::Abort
    );
    assert!(RecoveryStrategy::AutoRetry.is_automatic());
    assert!(!RecoveryStrategy::Prompt.is_automatic());
    assert!(RecoveryStrategy::Prompt.requires_interaction());
    assert!(!RecoveryStrategy::Abort.requires_interaction());
}

#[test]
fn suggestions_name_the_remedy() {
    let handler = ErrorHandler::new(false, true);
    let hint = handler
        .get_suggestion(&GtError::BranchNotFound { branch: "feature/x".to_string() })
        .unwrap();
    assert_eq!(hint, "use 'gt start feature/x' to create the branch");
    let hint = handler
        .get_suggestion(&GtError::RemoteNotFound { remote: "origin".to_string() })
        .unwrap();
    assert_eq!(hint, "use 'gt remote add origin <url>' to add the remote");
    assert!(handler.get_suggestion(&GtError::UserCancelled).is_none());
}

#[test]
fn recovery_is_attempted_only_interactively() {
    let interactive = ErrorHandler::new(false, true);
    let batch = ErrorHandler::new(false, false);
    assert!(interactive.should_attempt_recovery(&GtError::UncommittedChanges));
    assert!(!batch.should_attempt_recovery(&GtError::UncommittedChanges));
    assert!(!interactive.should_attempt_recovery(&GtError::NotInGitRepo));
}

#[test]
fn error_constructors_build_their_variants() {
    assert!(matches!(
        GtError::config_error("x".to_string()),
        GtError::ConfigError { .. }
    ));
    assert!(matches!(
        GtError::workflow_error("x".to_string()),
        GtError::WorkflowValidationError { .. }
    ));
    assert!(matches!(
        GtError::internal_error("x".to_string()),
        GtError::InternalError { .. }
    ));
}
