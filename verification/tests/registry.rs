use shrek_superslam::classes::hash_lookup;

/// The classes of the game: the hash of each, and its name.
const CLASSES: [(u32, &str); 388] = [
    (0xB974E53B, "Game::GameWorld"),
    (0xC239E1AB, "Game::RotationObject"),
    (0xE7DE386D, "Game::FrozenObject"),
    (0xC81858A7, "Game::HitPointObject"),
    (0xD94AF267, "Game::DangerObject"),
    (0x90B7F7D9, "Game::LoopingCombinationObject"),
    (0xEF9A1498, "Game::EffectObject"),
    (0x9848AD18, "Game::SoundObject"),
    (0x9386D5F8, "Game::SoundBox"),
    (0x850B9B2F, "Game::ForceBox"),
    (0xCE55537F, "Game::DestructibleObject"),
    (0x87C01D61, "Game::ReplacementItemSpawner"),
    (0xCD47AA2B, "Game::ItemSpawner"),
    (0xA1773A21, "Game::PlayerEffect"),
    (0xC320FF18, "Game::EffectStarter"),
    (0xDBFB4A35, "Game::ObjectInitializer"),
    (0x9ACD0AD1, "Game::PadTrigger"),
    (0x9414A807, "Game::HintTrigger"),
    (0xEEFC4B3C, "Game::PlayerFlagTrigger"),
    (0xD508DEF3, "Game::HoldingItemTrigger"),
    (0xC1CB398A, "Game::ItemTrigger"),
    (0xB2569A8D, "Game::TriggerTeleport"),
    (0xB576B7A0, "Game::TriggerMode"),
    (0xC0458C1A, "Game::TriggerEventSequence"),
    (0xBB8828E8, "Game::Trigger"),
    (0x90D8FCD6, "Game::Spitter"),
    (0x84AD7E70, "Game::SpitterKeyframe"),
    (0x9EDD2BDB, "Game::ShellController"),
    (0xCB4A46CD, "Game::PadStatus"),
    (0xA995C17E, "Game::LoseOnTime"),
    (0xBB17DA40, "Game::WinThreshold"),
    (0x96067A2C, "Game::LoseOnNoLives"),
    (0xD32DB93B, "Game::LoseIfTeamMemberLoses"),
    (0xAC50D20D, "Game::WinOnCount"),
    (0xBFCC890D, "Game::WinOnPoints"),
    (0xD19EA218, "Game::AlwaysHavePowerup"),
    (0xC496BEF7, "Game::AlwaysHaveWeapon"),
    (0xB9B84D11, "Game::RespawnAtTimes"),
    (0x9C321742, "Game::RespawnOnPlayerSlammed"),
    (0xEDF8FB25, "Game::RespawnIfPlayerDead"),
    (0x984D9BFA, "Game::RespawnAfterDeath"),
    (0xFAE4941A, "Game::AIDifficulty"),
    (0x9356083A, "Game::AIRampDifficultyByRound"),
    (0xE0529118, "Game::AIRampDifficultyOnLives"),
    (0x9D6A5031, "Game::AIHateForBeingHit"),
    (0xF3BFBC75, "Game::AIHatePlayer"),
    (0xFBB7890D, "Game::AIAllSettings"),
    (0xB1063F4E, "Game::AISettings"),
    (0xE6317725, "Game::AIHateRule"),
    (0xEF94268E, "Game::DieOnTrigger"),
    (0xBBE4569E, "Game::DieOnSlam"),
    (0xA9FD2CAB, "Game::RaceScoring"),
    (0xFD9397A9, "Game::ScoreUniqueSpitters"),
    (0xB848AE44, "Game::CountScoreThreshold"),
    (0xCF7DB63E, "Game::PointsForStat"),
    (0xA2F712DC, "Game::PointsForMove"),
    (0x838B238E, "Game::PointsForHolding"),
    (0xC86C019B, "Game::PointsForTrigger"),
    (0xC23DDB26, "Game::PointsForPickup"),
    (0xCDBF71ED, "Game::PointsForSlammingPlayer"),
    (0xF0DCB924, "Game::PointsForMultislam"),
    (0xD61C51D6, "Game::ReverseSlamScoring"),
    (0xB0D0C463, "Game::StandardSlamScoring"),
    (0xA30864D1, "Game::HitLoseMass"),
    (0xEE8D88D0, "Game::SlamDropCandy"),
    (0x8773A684, "Game::HitDropCandy"),
    (0xAE976571, "Game::MoveFilter"),
    (0xB9E2855B, "Game::HitGainOverTime"),
    (0xE362FD5C, "Game::HitSlamMeterFull"),
    (0xCADF8B33, "Game::HitDrainPower"),
    (0xB999E74C, "Game::HitGainPower"),
    (0xB71B8368, "Game::StandardHitCalculations"),
    (0xA735B439, "Game::WinRule"),
    (0xAC357B07, "Game::ScoreRule"),
    (0xB13062EB, "Game::Ruleset"),
    (0xA6FC81A0, "Game::RenderSpawn"),
    (0x898CE5F0, "Game::CollisionBone"),
    (0x9E086676, "Game::RenderBase"),
    (0xFACA7B72, "Game::CompoundLock"),
    (0xC66F1B0F, "Game::DebugAlwaysLock"),
    (0xB327837F, "Game::AllTrophyLock"),
    (0x877C2680, "Game::AllBadgesLock"),
    (0xF37E0B44, "Game::CharacterPlayedLock"),
    (0xF94ACEFD, "Game::StatLock"),
    (0xC2210CDD, "Game::TimeLock"),
    (0x99404BEF, "Game::SlamCountLock"),
    (0xA3C52BCB, "Game::LadderClearLock"),
    (0xE7E47AC7, "Game::PointsClearedLock"),
    (0xA34A56E0, "Game::ClusterClearedLock"),
    (0xDB95C924, "Game::ModeUnLockedLock"),
    (0xFD1FDE7E, "Game::LevelClearedLock"),
    (0xEF18743E, "Game::Lock"),
    (0x86ED912E, "Game::PrescribedMovement"),
    (0xE277740F, "Game::ApplauseMovementType"),
    (0x8046BF58, "Game::PanicRunMovementType"),
    (0x9EE64EBA, "Game::MagnetToPointMovementType"),
    (0x9A6A14A8, "Game::MagnetMovementType"),
    (0xFB09DBBB, "Game::FrozenMovementType"),
    (0xC147C572, "Game::PinataMovementType"),
    (0xA859DFEE, "Game::AttachToHavokObjMovementType"),
    (0xF24D9D30, "Game::GravityWandMovementType"),
    (0xCF617C7E, "Game::PrescribedMovementType"),
    (0xADDDF1EC, "Game::PhysicsFighting"),
    (0x894E3AE9, "Game::ComboSpec"),
    (0x90695169, "Game::BufferedMove"),
    (0x9616A4A0, "Game::AttackMove"),
    (0xEBF07BB5, "Game::AttackMoveType"),
    (0xF2CFE08D, "Game::AttackMoveRegion"),
    (0xB44FD060, "Game::PhysicsModelSimplePed"),
    (0xDB80AE8C, "Game::ContactStateModelConstrained"),
    (0xD886BF1B, "Game::ContactStateModelAirborn"),
    (0xE428884C, "Game::ContactStateModelGround"),
    (0xAD861E63, "Game::ContactStateModelBase"),
    (0xEA99DF81, "Game::PhysicsBase"),
    (0xE51FC5B0, "Game::perlin_noise_changing"),
    (0xB7AA610C, "Game::perlin_noise3d"),
    (0xE438E321, "Game::perlin_noise"),
    (0xB234F35A, "Game::perlin_noise_params"),
    (0xF7B763F1, "Game::LadderSetup"),
    (0xA0C4CC2F, "Game::CinematicMode"),
    (0xEC441540, "Game::Mode"),
    (0xAD9A2CB2, "Game::PreloadData"),
    (0x95172616, "Game::Level"),
    (0xE87813BA, "Game::LevelMesh"),
    (0x93AE869C, "Game::NodeSetUp3D"),
    (0xDC27C781, "Game::NodeSetUp2DWithTackOn"),
    (0xC1E2134A, "Game::NodeSetUp2D"),
    (0x8340CF0F, "Game::NodeSetUp1D"),
    (0x925430CB, "Game::NodeSetUp"),
    (0x81FB7394, "Game::SetValuePairString"),
    (0x92BAC9D4, "Game::SetValuePairObject"),
    (0xCB08B9C2, "Game::SetValuePair"),
    (0xB4817F16, "Game::RefObjNavNode"),
    (0x9814426F, "Game::HUDAIOptionsNavNode"),
    (0xFEF082C0, "Game::SetupOptionsNavNode"),
    (0x867C38FB, "Game::MeleeOptionsNavNode"),
    (0xE052070C, "Game::FunctionalityNavNode"),
    (0xB1FEA000, "Game::InterfaceNavNode"),
    (0xEB23097E, "Game::InterfaceNavNodeStub"),
    (0xB1F1A848, "Game::NodeAffectGroup"),
    (0x989F638F, "Game::InterfaceLayout"),
    (0x8D8D20AF, "Game::HudModeOptions"),
    (0x80F28026, "Game::ShellCharacterSelectMenu"),
    (0x8E80ED27, "Game::HUDSummaryControl"),
    (0xB340E18E, "Game::ModelStatusIndicator"),
    (0x8C22A912, "Game::LockedListenerDisplay"),
    (0xBE43D77C, "Game::InWorldMenuWrap"),
    (0x925039C8, "Game::ModeCompletionDisplay"),
    (0xE67EDC5D, "Game::NavigationLock"),
    (0xFA62DC5F, "Game::BonusDisplayShellMenu"),
    (0xD3D31BCA, "Game::ModeClusterShellMenu"),
    (0xB54AECE0, "Game::NavNodeTree"),
    (0xFC3D7B19, "Game::InterfaceScrollMenu"),
    (0x86FD461A, "Game::InterfaceMenu"),
    (0xDE65F66B, "Game::SimpleKeyMapMenu"),
    (0xCDC3DA2A, "Game::InterfaceMenuStub"),
    (0xEF7ED5F8, "Game::ShellUnlockableDisplay"),
    (0xA030FE2E, "Game::LadderDisplay"),
    (0xA33B4949, "Game::TeamFlagDisplay"),
    (0xAA7A773A, "Game::ShellCharacterModelDisplay"),
    (0xC5C695F3, "Game::ModelDisplay"),
    (0xD6E5D622, "Game::InWorldModelDisplay"),
    (0xD1DAE777, "Game::InterfaceModel"),
    (0xEB380818, "Game::HudModeTimer"),
    (0xC68C22F6, "Game::HudWinPointDisplay"),
    (0xE69C6711, "Game::HudSimpleModeInfoDisplay"),
    (0x8658551B, "Game::ShellModeInfoDisplay"),
    (0xA41A1CBF, "Game::HudSimplePreGameDisplay"),
    (0xE1477CAA, "Game::HudWinningSoundPlayer"),
    (0xCE81A051, "Game::StringFlasher"),
    (0xB0DDCD53, "Game::HudPregameDisplay"),
    (0xB89D4E88, "Game::HudTeamInfoDisplay"),
    (0xFB0D4BAD, "Game::HudCharInfoDisplay"),
    (0x9A673874, "Game::HoldKeyDisplay"),
    (0x9B2226C1, "Game::HudMedalDisplay"),
    (0xEC78B39E, "Game::ItemScroll"),
    (0xE1628175, "Game::GameFunctionalInfoItem"),
    (0xFD228C46, "Game::GameProgressInfoItem"),
    (0xB01B337A, "Game::HudCharInfoItem"),
    (0xC86C7F68, "Game::PadUnplugMessage"),
    (0x9C3CE0FD, "Game::HudSlamUpdater"),
    (0xCF4F942A, "Game::HudCharacterDisplay"),
    (0xC23153CF, "Game::InterfaceDisplayObject"),
    (0x86D0ABC8, "Game::HudCinematic"),
    (0xFCA7D96F, "Game::HudMelee"),
    (0xA2CED9CB, "Game::Hud"),
    (0xF32EBBA9, "Game::LoadingScreen"),
    (0x8871A11D, "Game::ModeCluster"),
    (0xBBFB0554, "Game::ModeLoader"),
    (0xE2BB19C3, "Game::PlayerEntity"),
    (0xBB37EB43, "Game::LevelMaxCamera"),
    (0xC9B834D4, "Game::LevelCamera"),
    (0x80557E97, "Game::GlobalMachine"),
    (0xD2DD0436, "Game::EventPlayEventSequence"),
    (0xBD6065B6, "Game::EventItemSetState"),
    (0x9D678770, "Game::EventPropSetPositionOrientation"),
    (0xEEDE33E3, "Game::EventMultiEffect"),
    (0xF5773F48, "Game::EventEffectOnManyObjects"),
    (0xFE97C48F, "Game::EventEffect"),
    (0xAECA0CAF, "Game::EventCameraFov"),
    (0x90D38045, "Game::EventCameraLookAtPoint"),
    (0x958EB61D, "Game::EventCameraLookAt"),
    (0xD3A9A9EC, "Game::EventCameraPositionPoint"),
    (0xBF0B9630, "Game::EventCameraPosition"),
    (0x97CFF398, "Game::EventCameraFinish"),
    (0xBA5E750F, "Game::EventCameraMaxCamTarget"),
    (0x8BFF848A, "Game::EventCameraMaxCamPosition"),
    (0xD3BE5E08, "Game::EventCameraMaxCam"),
    (0x89D80CDE, "Game::EventEntityQuickSetPositionOrient"),
    (0x8692ADA7, "Game::EventEntityTeleport"),
    (0xF45CC1B2, "Game::EventEntitySetOrient"),
    (0xB33BB7A2, "Game::EventEntitySetPosition"),
    (0xA807E1CF, "Game::EventEntityClearState"),
    (0xEF5EDD84, "Game::EventEntitySetState"),
    (0x985426D7, "Game::EventEntityPropDrop"),
    (0xF566CFD5, "Game::EventEntityPropGet"),
    (0xAB2F2611, "Game::EventChangeDestructibleObjectReset"),
    (0x9C624EE2, "Game::EventHavokObjectsReset"),
    (0xDB677D68, "Game::EventHavokObjectsUnhide"),
    (0xEC786CEC, "Game::EventHavokObjectsHide"),
    (0xFD5EEBD3, "Game::EventEnableItemTriggers"),
    (0x9251F413, "Game::EventDisableItemTriggers"),
    (0xFB2FDAAE, "Game::EventEnableTriggers"),
    (0xEA393FDD, "Game::EventDisableTriggers"),
    (0xBF77C223, "Game::EventEnableForceBoxes"),
    (0xAF35D0B8, "Game::EventDisableForceBoxes"),
    (0x8C19C6DD, "Game::EventObjectsAnimateUnpause"),
    (0xB3C1DD97, "Game::EventObjectsAnimateStop"),
    (0x814BA01B, "Game::EventObjectsAnimatePause"),
    (0xD7BF7C1A, "Game::EventObjectsAnimate"),
    (0xE079C55E, "Game::EventObjectsUnhide"),
    (0xF554CA7A, "Game::EventObjectsHide"),
    (0xCF336940, "Game::EventObjectsAll"),
    (0x85A7CD91, "Game::EventPlayWinSound"),
    (0xBBAF5F9D, "Game::EventPlayNameSound"),
    (0x88285AEF, "Game::EventStopSound"),
    (0xD04786EE, "Game::EventPlaySound"),
    (0xC73A0BB0, "Game::EventPrintOnScreen"),
    (0xD19046F4, "Game::EventResetHitPointObject"),
    (0xB1CDBFF2, "Game::EventDisableEventSpawnItems"),
    (0xC23A0700, "Game::EventSetDeflectionIncrease"),
    (0xFFE78054, "Game::EventChangeTargetType"),
    (0xDEA43CED, "Game::EventAddTargetObject"),
    (0xBA5D2FE7, "Game::EventPrintDebug"),
    (0xFCBD44E9, "Game::EventPlayerControl"),
    (0xF0777087, "Game::EventLight"),
    (0xD0B41C30, "Game::EventFontTex"),
    (0xA0C4CCF3, "Game::FontTexTemplateForEvent"),
    (0xE97A532F, "Game::EventTexBox"),
    (0xDCDB4F7B, "Game::EventFontBoxALT"),
    (0xE33D9AD2, "Game::EventFontBox"),
    (0xFD7AA25C, "Game::EventFade"),
    (0xF2A82C9C, "Game::EventPlayMovie"),
    (0xD68DEB1F, "Game::EventEnableDisableItemSpawner"),
    (0xD9DEB13E, "Game::EventModifyPower"),
    (0xD1E75823, "Game::EventKillPlayer"),
    (0xBF14BCC9, "Game::EventSpawnItemAtPlayer"),
    (0xEC1ED504, "Game::EventSpawnItem"),
    (0xEA0AF8D0, "Game::EventAIAllSettings"),
    (0xE3EA7633, "Game::EventAISettings"),
    (0xE8FB3826, "Game::EventAIHate"),
    (0xBCC650F7, "Game::Event"),
    (0xD24634FE, "Game::EventSequence"),
    (0xDDEC024E, "Game::Entity"),
    (0xC43D420D, "Game::EffectStringReference"),
    (0xA5B6016D, "Game::EffectManager"),
    (0xA6D66BE7, "Game::DynamicDataTimedEffects"),
    (0xF56BAEBA, "Game::EffectID"),
    (0xA3328A2B, "Game::DynamicRumbleEffectData"),
    (0xE8A85BC2, "Game::EffectRumbleType"),
    (0xF2EAF975, "Game::DynamicGlowEffectData"),
    (0xAED1C71E, "Game::EffectGlowType"),
    (0xEF73FDE0, "Game::DynamicParticleParams"),
    (0xA8A46E1D, "Game::EmitterType"),
    (0x831A6FB2, "Game::Trail"),
    (0xE2B181D0, "Game::TrailTypeB"),
    (0x9CC93660, "Game::TrailUniversalParameters"),
    (0x9435ED21, "Game::TrailBoneParameters"),
    (0xABA8D22E, "Game::TrailType"),
    (0xD56B4E12, "Game::DynamicCameraShakeEffectData"),
    (0xB9CFC0B1, "Game::EffectCamShakeType"),
    (0xD95188A4, "Game::DynamicLightEffectData"),
    (0xC51D687B, "Game::EffectLightType"),
    (0xC9F7CE39, "Game::DynamicColorEffectData"),
    (0xBE58F418, "Game::EffectFadeOpacity"),
    (0xD90CF408, "Game::EffectColorType"),
    (0xC38D0E39, "Game::DynamicSoundEffectData"),
    (0xAD86077D, "Game::EffectSound"),
    (0xC0EC833E, "Game::DynamicScaleEffectData"),
    (0xA3B2F988, "Game::EffectScale"),
    (0x9C5FF9AA, "Game::DynamicEffectDataParams"),
    (0x8A47CEC1, "Game::EffectOnEffect"),
    (0x8B525DE2, "Game::OrbiterType"),
    (0xFA4BBEA6, "Game::EffectCloneMesh"),
    (0xA282EE26, "Game::EffectType"),
    (0xFC0B6BE4, "Game::z_mesh_common_class_do_not_use"),
    (0xAC440797, "Game::EffectBase"),
    (0xC8E0C03F, "Game::DynamicThrowable"),
    (0x9E577451, "Game::Throwable"),
    (0xD6EADC7A, "Game::ThrowableType"),
    (0xCE151AE3, "Game::Powerup"),
    (0xBE7B44BA, "Game::PowerupType"),
    (0xF1E8852E, "Game::Potion"),
    (0xF05C7BD3, "Game::PotionType"),
    (0xD0EB4C91, "Game::Weapon"),
    (0xFE392AB6, "Game::WeaponType"),
    (0xB85D4A76, "Game::Prop"),
    (0x9CE2D8DC, "Game::PropType"),
    (0xC6864C7D, "Game::Item"),
    (0xC888B0E5, "Game::ItemType"),
    (0xF193ED57, "Game::Projectile"),
    (0x8811292E, "Game::ProjectileType"),
    (0xF12F7B1F, "Game::Target"),
    (0xACF81788, "Game::camManager"),
    (0x8F5B2D4A, "Game::camLevelSpec"),
    (0xC8A6232B, "Game::camBehaviorTrackEntity"),
    (0xA202922A, "Game::camBehaviorFourPlayer"),
    (0xFF434612, "Game::camBehaviorThreeAngle"),
    (0x8CF16624, "Game::camBehaviorThreeAngleClone"),
    (0x9B6514FB, "Game::camBehaviorFixedCam"),
    (0xB69429AD, "Game::camBehaviorCombatSimple"),
    (0xC81F5CEF, "Game::camBehaviorChase"),
    (0x87A280B4, "Game::camBehaviorOrbit"),
    (0x85DD409E, "Game::camBehaviorOffset"),
    (0x8B03BBB2, "Game::camBehaviorStatic"),
    (0xB8B20936, "Game::camBehaviorVert"),
    (0xB922A6DE, "Game::camBehavior"),
    (0xDDDDCA20, "Game::Mark"),
    (0xD306D805, "Game::BehaviorFightingControlShrek"),
    (0xDB77A1E2, "Game::Behavior"),
    (0xC7A5FA2C, "Game::MedalDisplay"),
    (0xF04367CA, "Game::TrophyInitializer"),
    (0x8FC1A7A3, "Game::MedalRewardStat"),
    (0xBA5D16BE, "Game::MedalRewardEvent"),
    (0xA2275A8C, "Game::Medal"),
    (0xA319D47F, "Game::Trophy"),
    (0xC5ABEF06, "Game::NavGraph"),
    (0xADA7C902, "Game::NavResult"),
    (0xD3563F1D, "Game::NavArea"),
    (0xA27701A8, "Game::NavAreaLink"),
    (0xAC0932FD, "Game::NavSplineLink"),
    (0x80DBAFCF, "Game::NavLink"),
    (0xE2AD9980, "Game::BehaviorAIFighting"),
    (0x910EDFA6, "Game::PlanThread"),
    (0x9B2B1A2E, "Game::AIParams"),
    (0xFE2687CC, "Game::BehaviorElement"),
    (0xF22F1C64, "Game::MovementParams"),
    (0xE523E5DC, "Game::ComboSpecParams"),
    (0xA824A923, "Game::AttackChoice"),
    (0xEDF80CFE, "Game::AIAttackFilter"),
    (0xCECA960A, "Game::ResponseCurve"),
    (0xE2371B05, "Game::StrategySet"),
    (0xFC9F4683, "Game::Strategy"),
    (0x847B38C6, "Game::FitnessFunction"),
    (0xDB39AF73, "Game::FitnessFunctionElement"),
    (0xC3D11ABB, "Game::PlanElement"),
    (0xE92DC70E, "Game::AIPerception"),
    (0xD97760D6, "gf::Object"),
    (0xBFC7788D, "gf::LocalizedString"),
    (0xA128E61A, "GF_TEMP::ScriptDB"),
    (0xCA75C29D, "GF_TEMP::HandyObject"),
    (0x9B3DDBED, "gf::DB"),
    (0xD9BB3F0F, "anim::LookatData"),
    (0xA3F86286, "render::SplineInstance"),
    (0xDEEEEA98, "render::DirectionalEmitter"),
    (0xDEEC048D, "render::DiskEmitter"),
    (0xA1BE9F14, "render::SphericalEmitter"),
    (0xFF156AC3, "render::PartSysFXEmitterDesc"),
    (0x890ED3DE, "render::LightInstance"),
    (0xFD7247FC, "render::FITLoader"),
    (0xABBF44AB, "render::FITex"),
    (0xA9B7911F, "render::TexBoxSimple"),
    (0xF0D52087, "render::TexBoxALT"),
    (0xC33EF61E, "render::FontBoxALT"),
    (0xDEF96960, "render::FontBox"),
    (0x87810BFF, "render::TexBox"),
    (0xB8425678, "render::InterfaceBox"),
    (0xFD7DDE8C, "render::FontStringManager"),
    (0xC4A179E2, "render::FontString"),
    (0xEF562E2E, "render::FontStyle"),
    (0xF89C5168, "render::FontManager"),
    (0xA4E55832, "render::FontLoader"),
    (0xFD02A278, "render::MaxCamera"),
    (0xCBD51018, "render::Camera"),
    (0xC51F1BDA, "render::BoxInstance"),
    (0xE5E23CC9, "render::AuxiliaryObject"),
    (0xCCEB6FFA, "bin::Object"),
    (0xE13BE71C, "core::ObjCollection"),
];

#[test]
fn every_class_is_found_by_its_hash() {
    for (hash, name) in CLASSES {
        assert_eq!(hash_lookup(hash), Some(name));
    }
}

#[test]
fn no_hash_names_two_classes() {
    let mut hashes: Vec<u32> = CLASSES.iter().map(|c| c.0).collect();
    hashes.sort();
    hashes.dedup();
    assert_eq!(hashes.len(), CLASSES.len());
}

#[test]
fn other_hashes_name_no_class() {
    for hash in [0u32, 1, 0xFFFF_FFFF, 0xEBF07BB4, 0xEBF07BB6] {
        assert_eq!(hash_lookup(hash), None);
    }
}
