use vstd::prelude::*;

verus! {

/// Which message of a conversation a prompt template fills.
#[derive(Clone, Copy, Debug, Hash, PartialEq, Eq, Structural)]
pub enum PromptPhase {
    System,
    User,
}

impl PromptPhase {
    /// The phase's lower-case name.
    pub open spec fn spec_as_str(self) -> Seq<char> {
        match self {
            PromptPhase::System => "system"@,
            PromptPhase::User => "user"@,
        }
    }

    pub fn as_str(&self) -> (s: &'static str)
        ensures
            s@ == self.spec_as_str(),
    {
        match self {
            PromptPhase::System => "system",
            PromptPhase::User => "user",
        }
    }
}

/// The folder of the prompt tree that a template lives in.
#[derive(Clone, Copy, Debug, Hash, PartialEq, Eq, Structural)]
pub enum PromptCategory {
    ConversationalAi,
    VideoAi,
    SelectionUtils,
}

impl PromptCategory {
    /// The category's folder name.
    pub open spec fn spec_as_str(self) -> Seq<char> {
        match self {
            PromptCategory::ConversationalAi => "conversational-ai"@,
            PromptCategory::VideoAi => "video-ai"@,
            PromptCategory::SelectionUtils => "selection-utils"@,
        }
    }

    pub fn as_str(&self) -> (s: &'static str)
        ensures
            s@ == self.spec_as_str(),
    {
        match self {
            PromptCategory::ConversationalAi => "conversational-ai",
            PromptCategory::VideoAi => "video-ai",
            PromptCategory::SelectionUtils => "selection-utils",
        }
    }
}

/// Every prompt template the library knows by name.
#[derive(Clone, Copy, Debug, Hash, PartialEq, Eq, Structural)]
pub enum PromptTemplate {
    PromptPreamble,
    UserMessageProcessingSystemPrompt,
    PlanGenerationAgentSystemPrompt,
    DetailedUsageEvaluationAgentSystemPrompt,
    NodeAnalysisPrompt,
    GetEditedVideoResponsePrompt,
    GetEditedVideoResponseUserPrompt,
    ProcessFileMessagePrepPrompt,
    ContentSectioningSystemPrompt,
    DiagramSpeechMatchingPrompt,
    SelectBestImageFromWebpagePrompt,
    GenerateSpeakerIntroBlurbPrompt,
    AnalyzeTranscriptStructurePrompt,
    PickBestSlidePrompt,
    IntroTranscriptPrompt,
    GenerateAddedOutroTranscriptPrompt,
    GenerateSpeakerThankYouBlurbPrompt,
    GenerateNarrativeAdditionForSlidePrompt,
    InsertionHintParserPrompt,
    InsertionHintUserPrompt,
    InsertionHintRetryPrompt,
    ExtractImageDescriptionPrompt,
    ExtractWebpageContentOnlyPrompt,
    ExtractWebpageFullPrompt,
    DslAiHelperSystemPrompt,
    DslAiHelperOtherSourcesSubPrompt,
    SummarizerSystemPrompt,
    ContentEditorPrompt,
    BuildStyleExtractionPrompt,
    ExtractSlideFromGeminiPrompt,
    PronunciationFinderPrompt,
    BestPronunciationSelectionPrompt,
    LocateDisfluenciesPrompt,
    VideoAnalysisPrompt,
    SelectionUtilsSystemPrompt,
    SelectionUtilsUserPrompt,
}

impl PromptTemplate {
    /// The template's directory name inside its category folder.
    pub open spec fn spec_name(self) -> Seq<char> {
        match self {
            PromptTemplate::PromptPreamble => "prompt_preamble"@,
            PromptTemplate::UserMessageProcessingSystemPrompt => "user_message_processing_system_prompt"@,
            PromptTemplate::PlanGenerationAgentSystemPrompt => "plan_generation_agent_system_prompt"@,
            PromptTemplate::DetailedUsageEvaluationAgentSystemPrompt => "detailed_usage_evaluation_agent_system_prompt"@,
            PromptTemplate::NodeAnalysisPrompt => "node_analysis_prompt"@,
            PromptTemplate::GetEditedVideoResponsePrompt => "get_edited_video_response_prompt"@,
            PromptTemplate::GetEditedVideoResponseUserPrompt => "get_edited_video_response_user_prompt"@,
            PromptTemplate::ProcessFileMessagePrepPrompt => "process_file_message_prep_prompt"@,
            PromptTemplate::ContentSectioningSystemPrompt => "content_sectioning_system_prompt"@,
            PromptTemplate::DiagramSpeechMatchingPrompt => "diagram_speech_matching_prompt"@,
            PromptTemplate::SelectBestImageFromWebpagePrompt => "select_best_image_from_webpage_prompt"@,
            PromptTemplate::GenerateSpeakerIntroBlurbPrompt => "generate_speaker_intro_blurb_prompt"@,
            PromptTemplate::AnalyzeTranscriptStructurePrompt => "analyze_transcript_structure_prompt"@,
            PromptTemplate::PickBestSlidePrompt => "pick_best_slide_prompt"@,
            PromptTemplate::IntroTranscriptPrompt => "intro_transcript_prompt"@,
            PromptTemplate::GenerateAddedOutroTranscriptPrompt => "generate_added_outro_transcript_prompt"@,
            PromptTemplate::GenerateSpeakerThankYouBlurbPrompt => "generate_speaker_thank_you_blurb_prompt"@,
            PromptTemplate::GenerateNarrativeAdditionForSlidePrompt => "generate_narrative_addition_for_slide_prompt"@,
            PromptTemplate::InsertionHintParserPrompt => "insertion_hint_parser_prompt"@,
            PromptTemplate::InsertionHintUserPrompt => "insertion_hint_user_prompt"@,
            PromptTemplate::InsertionHintRetryPrompt => "insertion_hint_retry_prompt"@,
            PromptTemplate::ExtractImageDescriptionPrompt => "extract_image_description_prompt"@,
            PromptTemplate::ExtractWebpageContentOnlyPrompt => "extract_webpage_content_only_prompt"@,
            PromptTemplate::ExtractWebpageFullPrompt => "extract_webpage_full_prompt"@,
            PromptTemplate::DslAiHelperSystemPrompt => "dsl_ai_helper_system_prompt"@,
            PromptTemplate::DslAiHelperOtherSourcesSubPrompt => "dsl_ai_helper_other_sources_sub_prompt"@,
            PromptTemplate::SummarizerSystemPrompt => "summarizer_system_prompt"@,
            PromptTemplate::ContentEditorPrompt => "content_editor_prompt"@,
            PromptTemplate::BuildStyleExtractionPrompt => "build_style_extraction_prompt"@,
            PromptTemplate::ExtractSlideFromGeminiPrompt => "extract_slide_from_gemini_prompt"@,
            PromptTemplate::PronunciationFinderPrompt => "pronunciation_finder_prompt"@,
            PromptTemplate::BestPronunciationSelectionPrompt => "best_pronunciation_selection_prompt"@,
            PromptTemplate::LocateDisfluenciesPrompt => "locate_disfluencies_prompt"@,
            PromptTemplate::VideoAnalysisPrompt => "video_analysis_prompt"@,
            PromptTemplate::SelectionUtilsSystemPrompt => "selection_utils_system_prompt"@,
            PromptTemplate::SelectionUtilsUserPrompt => "selection_utils_user_prompt"@,
        }
    }

    /// The category a template belongs to.
    pub open spec fn spec_category(self) -> PromptCategory {
        match self {
            PromptTemplate::PromptPreamble => PromptCategory::ConversationalAi,
            PromptTemplate::UserMessageProcessingSystemPrompt => PromptCategory::ConversationalAi,
            PromptTemplate::PlanGenerationAgentSystemPrompt => PromptCategory::ConversationalAi,
            PromptTemplate::DetailedUsageEvaluationAgentSystemPrompt => PromptCategory::ConversationalAi,
            PromptTemplate::NodeAnalysisPrompt => PromptCategory::ConversationalAi,
            PromptTemplate::GetEditedVideoResponsePrompt => PromptCategory::ConversationalAi,
            PromptTemplate::GetEditedVideoResponseUserPrompt => PromptCategory::ConversationalAi,
            PromptTemplate::ProcessFileMessagePrepPrompt => PromptCategory::ConversationalAi,
            PromptTemplate::ContentSectioningSystemPrompt => PromptCategory::VideoAi,
            PromptTemplate::DiagramSpeechMatchingPrompt => PromptCategory::VideoAi,
            PromptTemplate::SelectBestImageFromWebpagePrompt => PromptCategory::VideoAi,
            PromptTemplate::GenerateSpeakerIntroBlurbPrompt => PromptCategory::VideoAi,
            PromptTemplate::AnalyzeTranscriptStructurePrompt => PromptCategory::VideoAi,
            PromptTemplate::PickBestSlidePrompt => PromptCategory::VideoAi,
            PromptTemplate::IntroTranscriptPrompt => PromptCategory::VideoAi,
            PromptTemplate::GenerateAddedOutroTranscriptPrompt => PromptCategory::VideoAi,
            PromptTemplate::GenerateSpeakerThankYouBlurbPrompt => PromptCategory::VideoAi,
            PromptTemplate::GenerateNarrativeAdditionForSlidePrompt => PromptCategory::VideoAi,
            PromptTemplate::InsertionHintParserPrompt => PromptCategory::VideoAi,
            PromptTemplate::InsertionHintUserPrompt => PromptCategory::VideoAi,
            PromptTemplate::InsertionHintRetryPrompt => PromptCategory::VideoAi,
            PromptTemplate::ExtractImageDescriptionPrompt => PromptCategory::VideoAi,
            PromptTemplate::ExtractWebpageContentOnlyPrompt => PromptCategory::VideoAi,
            PromptTemplate::ExtractWebpageFullPrompt => PromptCategory::VideoAi,
            PromptTemplate::DslAiHelperSystemPrompt => PromptCategory::VideoAi,
            PromptTemplate::DslAiHelperOtherSourcesSubPrompt => PromptCategory::VideoAi,
            PromptTemplate::SummarizerSystemPrompt => PromptCategory::VideoAi,
            PromptTemplate::ContentEditorPrompt => PromptCategory::VideoAi,
            PromptTemplate::BuildStyleExtractionPrompt => PromptCategory::VideoAi,
            PromptTemplate::ExtractSlideFromGeminiPrompt => PromptCategory::VideoAi,
            PromptTemplate::PronunciationFinderPrompt => PromptCategory::VideoAi,
            PromptTemplate::BestPronunciationSelectionPrompt => PromptCategory::VideoAi,
            PromptTemplate::LocateDisfluenciesPrompt => PromptCategory::VideoAi,
            PromptTemplate::VideoAnalysisPrompt => PromptCategory::VideoAi,
            PromptTemplate::SelectionUtilsSystemPrompt => PromptCategory::SelectionUtils,
            PromptTemplate::SelectionUtilsUserPrompt => PromptCategory::SelectionUtils,
        }
    }

    /// The phase a template fills: the three user-prompt templates, and the system phase for all others.
    pub open spec fn spec_phase(self) -> PromptPhase {
        match self {
            PromptTemplate::GetEditedVideoResponseUserPrompt => PromptPhase::User,
            PromptTemplate::InsertionHintUserPrompt => PromptPhase::User,
            PromptTemplate::SelectionUtilsUserPrompt => PromptPhase::User,
            _ => PromptPhase::System,
        }
    }

    /// The file that holds the template text: one per phase.
    pub open spec fn spec_template_file_name(self) -> Seq<char> {
        match self.spec_phase() {
            PromptPhase::System => "system_prompt.j2"@,
            PromptPhase::User => "user_prompt.j2"@,
        }
    }

    pub fn name(&self) -> (s: &'static str)
        ensures
            s@ == self.spec_name(),
    {
        match self {
            PromptTemplate::PromptPreamble => "prompt_preamble",
            PromptTemplate::UserMessageProcessingSystemPrompt => "user_message_processing_system_prompt",
            PromptTemplate::PlanGenerationAgentSystemPrompt => "plan_generation_agent_system_prompt",
            PromptTemplate::DetailedUsageEvaluationAgentSystemPrompt => "detailed_usage_evaluation_agent_system_prompt",
            PromptTemplate::NodeAnalysisPrompt => "node_analysis_prompt",
            PromptTemplate::GetEditedVideoResponsePrompt => "get_edited_video_response_prompt",
            PromptTemplate::GetEditedVideoResponseUserPrompt => "get_edited_video_response_user_prompt",
            PromptTemplate::ProcessFileMessagePrepPrompt => "process_file_message_prep_prompt",
            PromptTemplate::ContentSectioningSystemPrompt => "content_sectioning_system_prompt",
            PromptTemplate::DiagramSpeechMatchingPrompt => "diagram_speech_matching_prompt",
            PromptTemplate::SelectBestImageFromWebpagePrompt => "select_best_image_from_webpage_prompt",
            PromptTemplate::GenerateSpeakerIntroBlurbPrompt => "generate_speaker_intro_blurb_prompt",
            PromptTemplate::AnalyzeTranscriptStructurePrompt => "analyze_transcript_structure_prompt",
            PromptTemplate::PickBestSlidePrompt => "pick_best_slide_prompt",
            PromptTemplate::IntroTranscriptPrompt => "intro_transcript_prompt",
            PromptTemplate::GenerateAddedOutroTranscriptPrompt => "generate_added_outro_transcript_prompt",
            PromptTemplate::GenerateSpeakerThankYouBlurbPrompt => "generate_speaker_thank_you_blurb_prompt",
            PromptTemplate::GenerateNarrativeAdditionForSlidePrompt => "generate_narrative_addition_for_slide_prompt",
            PromptTemplate::InsertionHintParserPrompt => "insertion_hint_parser_prompt",
            PromptTemplate::InsertionHintUserPrompt => "insertion_hint_user_prompt",
            PromptTemplate::InsertionHintRetryPrompt => "insertion_hint_retry_prompt",
            PromptTemplate::ExtractImageDescriptionPrompt => "extract_image_description_prompt",
            PromptTemplate::ExtractWebpageContentOnlyPrompt => "extract_webpage_content_only_prompt",
            PromptTemplate::ExtractWebpageFullPrompt => "extract_webpage_full_prompt",
            PromptTemplate::DslAiHelperSystemPrompt => "dsl_ai_helper_system_prompt",
            PromptTemplate::DslAiHelperOtherSourcesSubPrompt => "dsl_ai_helper_other_sources_sub_prompt",
            PromptTemplate::SummarizerSystemPrompt => "summarizer_system_prompt",
            PromptTemplate::ContentEditorPrompt => "content_editor_prompt",
            PromptTemplate::BuildStyleExtractionPrompt => "build_style_extraction_prompt",
            PromptTemplate::ExtractSlideFromGeminiPrompt => "extract_slide_from_gemini_prompt",
            PromptTemplate::PronunciationFinderPrompt => "pronunciation_finder_prompt",
            PromptTemplate::BestPronunciationSelectionPrompt => "best_pronunciation_selection_prompt",
            PromptTemplate::LocateDisfluenciesPrompt => "locate_disfluencies_prompt",
            PromptTemplate::VideoAnalysisPrompt => "video_analysis_prompt",
            PromptTemplate::SelectionUtilsSystemPrompt => "selection_utils_system_prompt",
            PromptTemplate::SelectionUtilsUserPrompt => "selection_utils_user_prompt",
        }
    }

    pub fn category(&self) -> (c: PromptCategory)
        ensures
            c == self.spec_category(),
    {
        match self {
            PromptTemplate::PromptPreamble => PromptCategory::ConversationalAi,
            PromptTemplate::UserMessageProcessingSystemPrompt => PromptCategory::ConversationalAi,
            PromptTemplate::PlanGenerationAgentSystemPrompt => PromptCategory::ConversationalAi,
            PromptTemplate::DetailedUsageEvaluationAgentSystemPrompt => PromptCategory::ConversationalAi,
            PromptTemplate::NodeAnalysisPrompt => PromptCategory::ConversationalAi,
            PromptTemplate::GetEditedVideoResponsePrompt => PromptCategory::ConversationalAi,
            PromptTemplate::GetEditedVideoResponseUserPrompt => PromptCategory::ConversationalAi,
            PromptTemplate::ProcessFileMessagePrepPrompt => PromptCategory::ConversationalAi,
            PromptTemplate::ContentSectioningSystemPrompt => PromptCategory::VideoAi,
            PromptTemplate::DiagramSpeechMatchingPrompt => PromptCategory::VideoAi,
            PromptTemplate::SelectBestImageFromWebpagePrompt => PromptCategory::VideoAi,
            PromptTemplate::GenerateSpeakerIntroBlurbPrompt => PromptCategory::VideoAi,
            PromptTemplate::AnalyzeTranscriptStructurePrompt => PromptCategory::VideoAi,
            PromptTemplate::PickBestSlidePrompt => PromptCategory::VideoAi,
            PromptTemplate::IntroTranscriptPrompt => PromptCategory::VideoAi,
            PromptTemplate::GenerateAddedOutroTranscriptPrompt => PromptCategory::VideoAi,
            PromptTemplate::GenerateSpeakerThankYouBlurbPrompt => PromptCategory::VideoAi,
            PromptTemplate::GenerateNarrativeAdditionForSlidePrompt => PromptCategory::VideoAi,
            PromptTemplate::InsertionHintParserPrompt => PromptCategory::VideoAi,
            PromptTemplate::InsertionHintUserPrompt => PromptCategory::VideoAi,
            PromptTemplate::InsertionHintRetryPrompt => PromptCategory::VideoAi,
            PromptTemplate::ExtractImageDescriptionPrompt => PromptCategory::VideoAi,
            PromptTemplate::ExtractWebpageContentOnlyPrompt => PromptCategory::VideoAi,
            PromptTemplate::ExtractWebpageFullPrompt => PromptCategory::VideoAi,
            PromptTemplate::DslAiHelperSystemPrompt => PromptCategory::VideoAi,
            PromptTemplate::DslAiHelperOtherSourcesSubPrompt => PromptCategory::VideoAi,
            PromptTemplate::SummarizerSystemPrompt => PromptCategory::VideoAi,
            PromptTemplate::ContentEditorPrompt => PromptCategory::VideoAi,
            PromptTemplate::BuildStyleExtractionPrompt => PromptCategory::VideoAi,
            PromptTemplate::ExtractSlideFromGeminiPrompt => PromptCategory::VideoAi,
            PromptTemplate::PronunciationFinderPrompt => PromptCategory::VideoAi,
            PromptTemplate::BestPronunciationSelectionPrompt => PromptCategory::VideoAi,
            PromptTemplate::LocateDisfluenciesPrompt => PromptCategory::VideoAi,
            PromptTemplate::VideoAnalysisPrompt => PromptCategory::VideoAi,
            PromptTemplate::SelectionUtilsSystemPrompt => PromptCategory::SelectionUtils,
            PromptTemplate::SelectionUtilsUserPrompt => PromptCategory::SelectionUtils,
        }
    }

    pub fn folder_path(&self) -> (s: &'static str)
        ensures
            s@ == self.spec_category().spec_as_str(),
    {
        self.category().as_str()
    }

    pub fn phase(&self) -> (p: PromptPhase)
        ensures
            p == self.spec_phase(),
    {
        match self {
            PromptTemplate::GetEditedVideoResponseUserPrompt => PromptPhase::User,
            PromptTemplate::InsertionHintUserPrompt => PromptPhase::User,
            PromptTemplate::SelectionUtilsUserPrompt => PromptPhase::User,
            _ => PromptPhase::System,
        }
    }

    pub fn template_file_name(&self) -> (s: &'static str)
        ensures
            s@ == self.spec_template_file_name(),
    {
        match self.phase() {
            PromptPhase::System => "system_prompt.j2",
            PromptPhase::User => "user_prompt.j2",
        }
    }
}

/// A template's text is read from `user_prompt.j2` exactly when it fills the
/// user phase, and from `system_prompt.j2` otherwise.
pub proof fn lemma_file_name_follows_phase(t: PromptTemplate)
    ensures
        (t.spec_template_file_name() == "user_prompt.j2"@) == (t.spec_phase() == PromptPhase::User),
        (t.spec_template_file_name() == "system_prompt.j2"@) == (t.spec_phase() == PromptPhase::System),
{
    reveal_strlit("user_prompt.j2");
    reveal_strlit("system_prompt.j2");
    assert("user_prompt.j2"@[0] != "system_prompt.j2"@[0]);
}

/// The template whose directory name is `n`, if any.
pub open spec fn template_named(n: Seq<char>) -> Option<PromptTemplate> {
    if n == "prompt_preamble"@ {
        Some(PromptTemplate::PromptPreamble)
    } else if n == "user_message_processing_system_prompt"@ {
        Some(PromptTemplate::UserMessageProcessingSystemPrompt)
    } else if n == "plan_generation_agent_system_prompt"@ {
        Some(PromptTemplate::PlanGenerationAgentSystemPrompt)
    } else if n == "detailed_usage_evaluation_agent_system_prompt"@ {
        Some(PromptTemplate::DetailedUsageEvaluationAgentSystemPrompt)
    } else if n == "node_analysis_prompt"@ {
        Some(PromptTemplate::NodeAnalysisPrompt)
    } else if n == "get_edited_video_response_prompt"@ {
        Some(PromptTemplate::GetEditedVideoResponsePrompt)
    } else if n == "get_edited_video_response_user_prompt"@ {
        Some(PromptTemplate::GetEditedVideoResponseUserPrompt)
    } else if n == "process_file_message_prep_prompt"@ {
        Some(PromptTemplate::ProcessFileMessagePrepPrompt)
    } else if n == "content_sectioning_system_prompt"@ {
        Some(PromptTemplate::ContentSectioningSystemPrompt)
    } else if n == "diagram_speech_matching_prompt"@ {
        Some(PromptTemplate::DiagramSpeechMatchingPrompt)
    } else if n == "select_best_image_from_webpage_prompt"@ {
        Some(PromptTemplate::SelectBestImageFromWebpagePrompt)
    } else if n == "generate_speaker_intro_blurb_prompt"@ {
        Some(PromptTemplate::GenerateSpeakerIntroBlurbPrompt)
    } else if n == "analyze_transcript_structure_prompt"@ {
        Some(PromptTemplate::AnalyzeTranscriptStructurePrompt)
    } else if n == "pick_best_slide_prompt"@ {
        Some(PromptTemplate::PickBestSlidePrompt)
    } else if n == "intro_transcript_prompt"@ {
        Some(PromptTemplate::IntroTranscriptPrompt)
    } else if n == "generate_added_outro_transcript_prompt"@ {
        Some(PromptTemplate::GenerateAddedOutroTranscriptPrompt)
    } else if n == "generate_speaker_thank_you_blurb_prompt"@ {
        Some(PromptTemplate::GenerateSpeakerThankYouBlurbPrompt)
    } else if n == "generate_narrative_addition_for_slide_prompt"@ {
        Some(PromptTemplate::GenerateNarrativeAdditionForSlidePrompt)
    } else if n == "insertion_hint_parser_prompt"@ {
        Some(PromptTemplate::InsertionHintParserPrompt)
    } else if n == "insertion_hint_user_prompt"@ {
        Some(PromptTemplate::InsertionHintUserPrompt)
    } else if n == "insertion_hint_retry_prompt"@ {
        Some(PromptTemplate::InsertionHintRetryPrompt)
    } else if n == "extract_image_description_prompt"@ {
        Some(PromptTemplate::ExtractImageDescriptionPrompt)
    } else if n == "extract_webpage_content_only_prompt"@ {
        Some(PromptTemplate::ExtractWebpageContentOnlyPrompt)
    } else if n == "extract_webpage_full_prompt"@ {
        Some(PromptTemplate::ExtractWebpageFullPrompt)
    } else if n == "dsl_ai_helper_system_prompt"@ {
        Some(PromptTemplate::DslAiHelperSystemPrompt)
    } else if n == "dsl_ai_helper_other_sources_sub_prompt"@ {
        Some(PromptTemplate::DslAiHelperOtherSourcesSubPrompt)
    } else if n == "summarizer_system_prompt"@ {
        Some(PromptTemplate::SummarizerSystemPrompt)
    } else if n == "content_editor_prompt"@ {
        Some(PromptTemplate::ContentEditorPrompt)
    } else if n == "build_style_extraction_prompt"@ {
        Some(PromptTemplate::BuildStyleExtractionPrompt)
    } else if n == "extract_slide_from_gemini_prompt"@ {
        Some(PromptTemplate::ExtractSlideFromGeminiPrompt)
    } else if n == "pronunciation_finder_prompt"@ {
        Some(PromptTemplate::PronunciationFinderPrompt)
    } else if n == "best_pronunciation_selection_prompt"@ {
        Some(PromptTemplate::BestPronunciationSelectionPrompt)
    } else if n == "locate_disfluencies_prompt"@ {
        Some(PromptTemplate::LocateDisfluenciesPrompt)
    } else if n == "video_analysis_prompt"@ {
        Some(PromptTemplate::VideoAnalysisPrompt)
    } else if n == "selection_utils_system_prompt"@ {
        Some(PromptTemplate::SelectionUtilsSystemPrompt)
    } else if n == "selection_utils_user_prompt"@ {
        Some(PromptTemplate::SelectionUtilsUserPrompt)
    } else {
        None
    }
}

/// Each template is found again by its name, so no two templates share a name.
pub proof fn lemma_names_distinct(a: PromptTemplate, b: PromptTemplate)
    ensures
        template_named(a.spec_name()) == Some(a),
        a != b ==> a.spec_name() != b.spec_name(),
{
    lemma_named_back(a);
    lemma_named_back(b);
}

proof fn lemma_named_back(t: PromptTemplate)
    ensures
        template_named(t.spec_name()) == Some(t),
{
    lemma_name_letters();
}

/// The lengths of the names, and the letters at which names of one length
/// first differ.
proof fn lemma_name_letters()
    ensures
        "prompt_preamble"@.len() == 15,
        "user_message_processing_system_prompt"@.len() == 37,
        "plan_generation_agent_system_prompt"@.len() == 35,
        "detailed_usage_evaluation_agent_system_prompt"@.len() == 45,
        "node_analysis_prompt"@.len() == 20,
        "get_edited_video_response_prompt"@.len() == 32,
        "get_edited_video_response_user_prompt"@.len() == 37,
        "process_file_message_prep_prompt"@.len() == 32,
        "content_sectioning_system_prompt"@.len() == 32,
        "diagram_speech_matching_prompt"@.len() == 30,
        "select_best_image_from_webpage_prompt"@.len() == 37,
        "generate_speaker_intro_blurb_prompt"@.len() == 35,
        "analyze_transcript_structure_prompt"@.len() == 35,
        "pick_best_slide_prompt"@.len() == 22,
        "intro_transcript_prompt"@.len() == 23,
        "generate_added_outro_transcript_prompt"@.len() == 38,
        "generate_speaker_thank_you_blurb_prompt"@.len() == 39,
        "generate_narrative_addition_for_slide_prompt"@.len() == 44,
        "insertion_hint_parser_prompt"@.len() == 28,
        "insertion_hint_user_prompt"@.len() == 26,
        "insertion_hint_retry_prompt"@.len() == 27,
        "extract_image_description_prompt"@.len() == 32,
        "extract_webpage_content_only_prompt"@.len() == 35,
        "extract_webpage_full_prompt"@.len() == 27,
        "dsl_ai_helper_system_prompt"@.len() == 27,
        "dsl_ai_helper_other_sources_sub_prompt"@.len() == 38,
        "summarizer_system_prompt"@.len() == 24,
        "content_editor_prompt"@.len() == 21,
        "build_style_extraction_prompt"@.len() == 29,
        "extract_slide_from_gemini_prompt"@.len() == 32,
        "pronunciation_finder_prompt"@.len() == 27,
        "best_pronunciation_selection_prompt"@.len() == 35,
        "locate_disfluencies_prompt"@.len() == 26,
        "video_analysis_prompt"@.len() == 21,
        "selection_utils_system_prompt"@.len() == 29,
        "selection_utils_user_prompt"@.len() == 27,
        "analyze_transcript_structure_prompt"@[0] == 'a',
        "best_pronunciation_selection_prompt"@[0] == 'b',
        "build_style_extraction_prompt"@[0] == 'b',
        "content_editor_prompt"@[0] == 'c',
        "content_sectioning_system_prompt"@[0] == 'c',
        "dsl_ai_helper_other_sources_sub_prompt"@[0] == 'd',
        "dsl_ai_helper_system_prompt"@[0] == 'd',
        "extract_image_description_prompt"@[0] == 'e',
        "extract_image_description_prompt"@[8] == 'i',
        "extract_slide_from_gemini_prompt"@[0] == 'e',
        "extract_slide_from_gemini_prompt"@[8] == 's',
        "extract_webpage_content_only_prompt"@[0] == 'e',
        "extract_webpage_full_prompt"@[0] == 'e',
        "generate_added_outro_transcript_prompt"@[0] == 'g',
        "generate_speaker_intro_blurb_prompt"@[0] == 'g',
        "get_edited_video_response_prompt"@[0] == 'g',
        "get_edited_video_response_user_prompt"@[0] == 'g',
        "insertion_hint_retry_prompt"@[0] == 'i',
        "insertion_hint_user_prompt"@[0] == 'i',
        "locate_disfluencies_prompt"@[0] == 'l',
        "plan_generation_agent_system_prompt"@[0] == 'p',
        "process_file_message_prep_prompt"@[0] == 'p',
        "pronunciation_finder_prompt"@[0] == 'p',
        "select_best_image_from_webpage_prompt"@[0] == 's',
        "selection_utils_system_prompt"@[0] == 's',
        "selection_utils_user_prompt"@[0] == 's',
        "user_message_processing_system_prompt"@[0] == 'u',
        "video_analysis_prompt"@[0] == 'v',
{
    reveal_strlit("prompt_preamble");
    reveal_strlit("user_message_processing_system_prompt");
    reveal_strlit("plan_generation_agent_system_prompt");
    reveal_strlit("detailed_usage_evaluation_agent_system_prompt");
    reveal_strlit("node_analysis_prompt");
    reveal_strlit("get_edited_video_response_prompt");
    reveal_strlit("get_edited_video_response_user_prompt");
    reveal_strlit("process_file_message_prep_prompt");
    reveal_strlit("content_sectioning_system_prompt");
    reveal_strlit("diagram_speech_matching_prompt");
    reveal_strlit("select_best_image_from_webpage_prompt");
    reveal_strlit("generate_speaker_intro_blurb_prompt");
    reveal_strlit("analyze_transcript_structure_prompt");
    reveal_strlit("pick_best_slide_prompt");
    reveal_strlit("intro_transcript_prompt");
    reveal_strlit("generate_added_outro_transcript_prompt");
    reveal_strlit("generate_speaker_thank_you_blurb_prompt");
    reveal_strlit("generate_narrative_addition_for_slide_prompt");
    reveal_strlit("insertion_hint_parser_prompt");
    reveal_strlit("insertion_hint_user_prompt");
    reveal_strlit("insertion_hint_retry_prompt");
    reveal_strlit("extract_image_description_prompt");
    reveal_strlit("extract_webpage_content_only_prompt");
    reveal_strlit("extract_webpage_full_prompt");
    reveal_strlit("dsl_ai_helper_system_prompt");
    reveal_strlit("dsl_ai_helper_other_sources_sub_prompt");
    reveal_strlit("summarizer_system_prompt");
    reveal_strlit("content_editor_prompt");
    reveal_strlit("build_style_extraction_prompt");
    reveal_strlit("extract_slide_from_gemini_prompt");
    reveal_strlit("pronunciation_finder_prompt");
    reveal_strlit("best_pronunciation_selection_prompt");
    reveal_strlit("locate_disfluencies_prompt");
    reveal_strlit("video_analysis_prompt");
    reveal_strlit("selection_utils_system_prompt");
    reveal_strlit("selection_utils_user_prompt");
}


/// A character of a snake_case name.
pub open spec fn is_snake_char(c: char) -> bool {
    ('a' <= c && c <= 'z') || c == '_'
}

/// Every character of `s` is a lowercase letter or an underscore.
pub open spec fn all_snake(s: Seq<char>) -> bool {
    forall|i: int| 0 <= i < s.len() ==> #[trigger] is_snake_char(s[i])
}

/// Each template's name is non-empty and in snake_case: lowercase letters and
/// underscores only.
pub proof fn lemma_name_alphabet(t: PromptTemplate)
    ensures
        t.spec_name().len() > 0,
        all_snake(t.spec_name()),
{
    match t {
        PromptTemplate::PromptPreamble => {
            reveal_strlit("prompt_preamble");
        },
        PromptTemplate::UserMessageProcessingSystemPrompt => {
            reveal_strlit("user_message_processing_system_prompt");
        },
        PromptTemplate::PlanGenerationAgentSystemPrompt => {
            reveal_strlit("plan_generation_agent_system_prompt");
        },
        PromptTemplate::DetailedUsageEvaluationAgentSystemPrompt => {
            reveal_strlit("detailed_usage_evaluation_agent_system_prompt");
        },
        PromptTemplate::NodeAnalysisPrompt => {
            reveal_strlit("node_analysis_prompt");
        },
        PromptTemplate::GetEditedVideoResponsePrompt => {
            reveal_strlit("get_edited_video_response_prompt");
        },
        PromptTemplate::GetEditedVideoResponseUserPrompt => {
            reveal_strlit("get_edited_video_response_user_prompt");
        },
        PromptTemplate::ProcessFileMessagePrepPrompt => {
            reveal_strlit("process_file_message_prep_prompt");
        },
        PromptTemplate::ContentSectioningSystemPrompt => {
            reveal_strlit("content_sectioning_system_prompt");
        },
        PromptTemplate::DiagramSpeechMatchingPrompt => {
            reveal_strlit("diagram_speech_matching_prompt");
        },
        PromptTemplate::SelectBestImageFromWebpagePrompt => {
            reveal_strlit("select_best_image_from_webpage_prompt");
        },
        PromptTemplate::GenerateSpeakerIntroBlurbPrompt => {
            reveal_strlit("generate_speaker_intro_blurb_prompt");
        },
        PromptTemplate::AnalyzeTranscriptStructurePrompt => {
            reveal_strlit("analyze_transcript_structure_prompt");
        },
        PromptTemplate::PickBestSlidePrompt => {
            reveal_strlit("pick_best_slide_prompt");
        },
        PromptTemplate::IntroTranscriptPrompt => {
            reveal_strlit("intro_transcript_prompt");
        },
        PromptTemplate::GenerateAddedOutroTranscriptPrompt => {
            reveal_strlit("generate_added_outro_transcript_prompt");
        },
        PromptTemplate::GenerateSpeakerThankYouBlurbPrompt => {
            reveal_strlit("generate_speaker_thank_you_blurb_prompt");
        },
        PromptTemplate::GenerateNarrativeAdditionForSlidePrompt => {
            reveal_strlit("generate_narrative_addition_for_slide_prompt");
        },
        PromptTemplate::InsertionHintParserPrompt => {
            reveal_strlit("insertion_hint_parser_prompt");
        },
        PromptTemplate::InsertionHintUserPrompt => {
            reveal_strlit("insertion_hint_user_prompt");
        },
        PromptTemplate::InsertionHintRetryPrompt => {
            reveal_strlit("insertion_hint_retry_prompt");
        },
        PromptTemplate::ExtractImageDescriptionPrompt => {
            reveal_strlit("extract_image_description_prompt");
        },
        PromptTemplate::ExtractWebpageContentOnlyPrompt => {
            reveal_strlit("extract_webpage_content_only_prompt");
        },
        PromptTemplate::ExtractWebpageFullPrompt => {
            reveal_strlit("extract_webpage_full_prompt");
        },
        PromptTemplate::DslAiHelperSystemPrompt => {
            reveal_strlit("dsl_ai_helper_system_prompt");
        },
        PromptTemplate::DslAiHelperOtherSourcesSubPrompt => {
            reveal_strlit("dsl_ai_helper_other_sources_sub_prompt");
        },
        PromptTemplate::SummarizerSystemPrompt => {
            reveal_strlit("summarizer_system_prompt");
        },
        PromptTemplate::ContentEditorPrompt => {
            reveal_strlit("content_editor_prompt");
        },
        PromptTemplate::BuildStyleExtractionPrompt => {
            reveal_strlit("build_style_extraction_prompt");
        },
        PromptTemplate::ExtractSlideFromGeminiPrompt => {
            reveal_strlit("extract_slide_from_gemini_prompt");
        },
        PromptTemplate::PronunciationFinderPrompt => {
            reveal_strlit("pronunciation_finder_prompt");
        },
        PromptTemplate::BestPronunciationSelectionPrompt => {
            reveal_strlit("best_pronunciation_selection_prompt");
        },
        PromptTemplate::LocateDisfluenciesPrompt => {
            reveal_strlit("locate_disfluencies_prompt");
        },
        PromptTemplate::VideoAnalysisPrompt => {
            reveal_strlit("video_analysis_prompt");
        },
        PromptTemplate::SelectionUtilsSystemPrompt => {
            reveal_strlit("selection_utils_system_prompt");
        },
        PromptTemplate::SelectionUtilsUserPrompt => {
            reveal_strlit("selection_utils_user_prompt");
        },
    }
}

/// `s` ends with `suffix`.
pub open spec fn ends_with(s: Seq<char>, suffix: Seq<char>) -> bool {
    s.len() >= suffix.len() && s.subrange(s.len() - suffix.len(), s.len() as int) == suffix
}

/// A template fills the user phase, and so reads `user_prompt.j2`, exactly
/// when its name ends in `_user_prompt`; every other template fills the
/// system phase and reads `system_prompt.j2`.
pub proof fn lemma_user_phase_by_name(t: PromptTemplate)
    ensures
        (t.spec_phase() == PromptPhase::User) <==> ends_with(t.spec_name(), "_user_prompt"@),
        (t.spec_phase() == PromptPhase::System) <==> !ends_with(t.spec_name(), "_user_prompt"@),
        (t.spec_template_file_name() == "user_prompt.j2"@) <==> ends_with(t.spec_name(), "_user_prompt"@),
{
    lemma_file_name_follows_phase(t);
    reveal_strlit("_user_prompt");
    let n = t.spec_name();
    let u = "_user_prompt"@;
    match t {
        PromptTemplate::PromptPreamble => {
            reveal_strlit("prompt_preamble");
            assert(n.subrange(n.len() - u.len(), n.len() as int)[0] != u[0]);
        },
        PromptTemplate::UserMessageProcessingSystemPrompt => {
            reveal_strlit("user_message_processing_system_prompt");
            assert(n.subrange(n.len() - u.len(), n.len() as int)[0] != u[0]);
        },
        PromptTemplate::PlanGenerationAgentSystemPrompt => {
            reveal_strlit("plan_generation_agent_system_prompt");
            assert(n.subrange(n.len() - u.len(), n.len() as int)[0] != u[0]);
        },
        PromptTemplate::DetailedUsageEvaluationAgentSystemPrompt => {
            reveal_strlit("detailed_usage_evaluation_agent_system_prompt");
            assert(n.subrange(n.len() - u.len(), n.len() as int)[0] != u[0]);
        },
        PromptTemplate::NodeAnalysisPrompt => {
            reveal_strlit("node_analysis_prompt");
            assert(n.subrange(n.len() - u.len(), n.len() as int)[0] != u[0]);
        },
        PromptTemplate::GetEditedVideoResponsePrompt => {
            reveal_strlit("get_edited_video_response_prompt");
            assert(n.subrange(n.len() - u.len(), n.len() as int)[0] != u[0]);
        },
        PromptTemplate::GetEditedVideoResponseUserPrompt => {
            reveal_strlit("get_edited_video_response_user_prompt");
            assert(n.subrange(n.len() - u.len(), n.len() as int) =~= u);
        },
        PromptTemplate::ProcessFileMessagePrepPrompt => {
            reveal_strlit("process_file_message_prep_prompt");
            assert(n.subrange(n.len() - u.len(), n.len() as int)[1] != u[1]);
        },
        PromptTemplate::ContentSectioningSystemPrompt => {
            reveal_strlit("content_sectioning_system_prompt");
            assert(n.subrange(n.len() - u.len(), n.len() as int)[0] != u[0]);
        },
        PromptTemplate::DiagramSpeechMatchingPrompt => {
            reveal_strlit("diagram_speech_matching_prompt");
            assert(n.subrange(n.len() - u.len(), n.len() as int)[0] != u[0]);
        },
        PromptTemplate::SelectBestImageFromWebpagePrompt => {
            reveal_strlit("select_best_image_from_webpage_prompt");
            assert(n.subrange(n.len() - u.len(), n.len() as int)[0] != u[0]);
        },
        PromptTemplate::GenerateSpeakerIntroBlurbPrompt => {
            reveal_strlit("generate_speaker_intro_blurb_prompt");
            assert(n.subrange(n.len() - u.len(), n.len() as int)[0] != u[0]);
        },
        PromptTemplate::AnalyzeTranscriptStructurePrompt => {
            reveal_strlit("analyze_transcript_structure_prompt");
            assert(n.subrange(n.len() - u.len(), n.len() as int)[0] != u[0]);
        },
        PromptTemplate::PickBestSlidePrompt => {
            reveal_strlit("pick_best_slide_prompt");
            assert(n.subrange(n.len() - u.len(), n.len() as int)[0] != u[0]);
        },
        PromptTemplate::IntroTranscriptPrompt => {
            reveal_strlit("intro_transcript_prompt");
            assert(n.subrange(n.len() - u.len(), n.len() as int)[0] != u[0]);
        },
        PromptTemplate::GenerateAddedOutroTranscriptPrompt => {
            reveal_strlit("generate_added_outro_transcript_prompt");
            assert(n.subrange(n.len() - u.len(), n.len() as int)[0] != u[0]);
        },
        PromptTemplate::GenerateSpeakerThankYouBlurbPrompt => {
            reveal_strlit("generate_speaker_thank_you_blurb_prompt");
            assert(n.subrange(n.len() - u.len(), n.len() as int)[0] != u[0]);
        },
        PromptTemplate::GenerateNarrativeAdditionForSlidePrompt => {
            reveal_strlit("generate_narrative_addition_for_slide_prompt");
            assert(n.subrange(n.len() - u.len(), n.len() as int)[0] != u[0]);
        },
        PromptTemplate::InsertionHintParserPrompt => {
            reveal_strlit("insertion_hint_parser_prompt");
            assert(n.subrange(n.len() - u.len(), n.len() as int)[0] != u[0]);
        },
        PromptTemplate::InsertionHintUserPrompt => {
            reveal_strlit("insertion_hint_user_prompt");
            assert(n.subrange(n.len() - u.len(), n.len() as int) =~= u);
        },
        PromptTemplate::InsertionHintRetryPrompt => {
            reveal_strlit("insertion_hint_retry_prompt");
            assert(n.subrange(n.len() - u.len(), n.len() as int)[0] != u[0]);
        },
        PromptTemplate::ExtractImageDescriptionPrompt => {
            reveal_strlit("extract_image_description_prompt");
            assert(n.subrange(n.len() - u.len(), n.len() as int)[0] != u[0]);
        },
        PromptTemplate::ExtractWebpageContentOnlyPrompt => {
            reveal_strlit("extract_webpage_content_only_prompt");
            assert(n.subrange(n.len() - u.len(), n.len() as int)[1] != u[1]);
        },
        PromptTemplate::ExtractWebpageFullPrompt => {
            reveal_strlit("extract_webpage_full_prompt");
            assert(n.subrange(n.len() - u.len(), n.len() as int)[1] != u[1]);
        },
        PromptTemplate::DslAiHelperSystemPrompt => {
            reveal_strlit("dsl_ai_helper_system_prompt");
            assert(n.subrange(n.len() - u.len(), n.len() as int)[0] != u[0]);
        },
        PromptTemplate::DslAiHelperOtherSourcesSubPrompt => {
            reveal_strlit("dsl_ai_helper_other_sources_sub_prompt");
            assert(n.subrange(n.len() - u.len(), n.len() as int)[0] != u[0]);
        },
        PromptTemplate::SummarizerSystemPrompt => {
            reveal_strlit("summarizer_system_prompt");
            assert(n.subrange(n.len() - u.len(), n.len() as int)[0] != u[0]);
        },
        PromptTemplate::ContentEditorPrompt => {
            reveal_strlit("content_editor_prompt");
            assert(n.subrange(n.len() - u.len(), n.len() as int)[0] != u[0]);
        },
        PromptTemplate::BuildStyleExtractionPrompt => {
            reveal_strlit("build_style_extraction_prompt");
            assert(n.subrange(n.len() - u.len(), n.len() as int)[0] != u[0]);
        },
        PromptTemplate::ExtractSlideFromGeminiPrompt => {
            reveal_strlit("extract_slide_from_gemini_prompt");
            assert(n.subrange(n.len() - u.len(), n.len() as int)[0] != u[0]);
        },
        PromptTemplate::PronunciationFinderPrompt => {
            reveal_strlit("pronunciation_finder_prompt");
            assert(n.subrange(n.len() - u.len(), n.len() as int)[0] != u[0]);
        },
        PromptTemplate::BestPronunciationSelectionPrompt => {
            reveal_strlit("best_pronunciation_selection_prompt");
            assert(n.subrange(n.len() - u.len(), n.len() as int)[0] != u[0]);
        },
        PromptTemplate::LocateDisfluenciesPrompt => {
            reveal_strlit("locate_disfluencies_prompt");
            assert(n.subrange(n.len() - u.len(), n.len() as int)[0] != u[0]);
        },
        PromptTemplate::VideoAnalysisPrompt => {
            reveal_strlit("video_analysis_prompt");
            assert(n.subrange(n.len() - u.len(), n.len() as int)[0] != u[0]);
        },
        PromptTemplate::SelectionUtilsSystemPrompt => {
            reveal_strlit("selection_utils_system_prompt");
            assert(n.subrange(n.len() - u.len(), n.len() as int)[0] != u[0]);
        },
        PromptTemplate::SelectionUtilsUserPrompt => {
            reveal_strlit("selection_utils_user_prompt");
            assert(n.subrange(n.len() - u.len(), n.len() as int) =~= u);
        },
    }
}

} // verus!
