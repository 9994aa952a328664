//! The services of a running workbench, all on one database.

use vstd::prelude::*;

use crate::automation::AutomationService;
use crate::backup::BackupService;
use crate::clipboard::{ClipboardService, ClipboardSettings};
use crate::daily_wrap::DailyWrapService;
use crate::data_port::DataPortService;
use crate::db::Database;
use crate::file_refs::FileReferenceService;
use crate::focus::FocusService;
use crate::health_dashboard::HealthDashboardService;
use crate::links::EntityLinkService;
use crate::memories::MemoryService;
use crate::reminders::ReminderService;
use crate::saved_views::SavedViewService;
use crate::search::SearchService;
use crate::smoke_notes::SmokeNoteService;
use crate::tasks::TaskService;
use crate::templates::TemplateService;
use crate::weekly_review::WeeklyReviewService;

verus! {

pub struct AppState {
    pub db: Database,
    pub backup_dir: String,
    pub smoke_notes: SmokeNoteService,
    pub tasks: TaskService,
    pub reminders: ReminderService,
    pub memories: MemoryService,
    pub search: SearchService,
    pub clipboard: ClipboardService,
    pub backups: BackupService,
    pub data_port: DataPortService,
    pub templates: TemplateService,
    pub links: EntityLinkService,
    pub saved_views: SavedViewService,
    pub focus: FocusService,
    pub daily_wrap: DailyWrapService,
    pub weekly_review: WeeklyReviewService,
    pub health_dashboard: HealthDashboardService,
    pub file_refs: FileReferenceService,
    pub automation: AutomationService,
}

impl AppState {
    /// The services on `db`, after the default lists are seeded; the search
    /// index is rebuilt and the clipboard limits are applied, each on a best
    /// effort (a failure there does not stop the start).
    pub fn new(db: Database, backup_dir: String, assets_root: String, clipboard_settings: &ClipboardSettings) -> (r: Result<AppState, String>)
        ensures
            r matches Ok(s) ==> s.db.path@ == db.path@ && s.backup_dir@ == backup_dir@
                && s.backups.backup_dir@ == backup_dir@ && s.health_dashboard.assets_root@ == assets_root@,
            r matches Err(m) ==> exists|e: crate::domain::DomainError| m@ == "seed task data: "@ + #[trigger] crate::domain::error_text(e),
    {
        let tasks = TaskService::new(db.clone());
        match tasks.ensure_seed_data() {
            Ok(()) => {},
            Err(e) => {
                let mut m = "seed task data: ".to_string();
                m.append(crate::domain::error_message(&e).as_str());
                return Err(m);
            },
        }
        let state = AppState {
            smoke_notes: SmokeNoteService::new(db.clone()),
            tasks,
            reminders: ReminderService::new(db.clone()),
            memories: MemoryService::new(db.clone()),
            search: SearchService::new(db.clone()),
            health_dashboard: HealthDashboardService::new(db.clone(), assets_root.clone()),
            clipboard: ClipboardService::new(db.clone(), assets_root),
            backups: BackupService::new(db.clone(), backup_dir.clone()),
            data_port: DataPortService::new(db.clone()),
            templates: TemplateService::new(db.clone()),
            links: EntityLinkService::new(db.clone()),
            saved_views: SavedViewService::new(db.clone()),
            focus: FocusService::new(db.clone()),
            daily_wrap: DailyWrapService::new(db.clone()),
            weekly_review: WeeklyReviewService::new(db.clone()),
            file_refs: FileReferenceService::new(db.clone()),
            automation: AutomationService::new(db.clone()),
            backup_dir,
            db,
        };
        let _ = state.search.rebuild_all();
        let _ = state.clipboard.enforce_limits(clipboard_settings);
        Ok(state)
    }
}

} // verus!
